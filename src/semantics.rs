//! What composite instructions compute: a value semantics for composite
//! construction and field extraction, over an environment that maps result
//! identifiers to values.

use vstd::prelude::*;
use crate::context::ContextModel;
use crate::instruction::{composite_construct_model, InstructionModel};
use crate::ray::{ray_desc_extracts, RAY_DESC_FIELD_COUNT};

verus! {

/// A value of the generated program: a scalar by its bits, or a composite
/// by its fields.
pub enum Value {
    Bits(u32),
    Composite(Seq<Value>),
}

/// The environment after running one instruction. Composite construction
/// binds its result to the composite of its operands' values; extraction
/// binds its result to the field its index selects. Other instructions leave
/// the environment as it is.
pub open spec fn step(env: Map<u32, Value>, inst: InstructionModel) -> Map<u32, Value> {
    match inst.result_id {
        None => env,
        Some(id) => if inst.op == 80 {
            env.insert(id, Value::Composite(inst.operands.map_values(|o: u32| env[o])))
        } else if inst.op == 81 && inst.operands.len() == 2 {
            match env[inst.operands[0]] {
                Value::Composite(fields) => if inst.operands[1] < fields.len() {
                    env.insert(id, fields[inst.operands[1] as int])
                } else {
                    env
                },
                Value::Bits(_) => env,
            }
        } else {
            env
        },
    }
}

/// The environment after running `insts` in order.
pub open spec fn run(env: Map<u32, Value>, insts: Seq<InstructionModel>) -> Map<u32, Value>
    decreases insts.len(),
{
    if insts.len() == 0 {
        env
    } else {
        step(run(env, insts.drop_last()), insts.last())
    }
}

proof fn lemma_ray_desc_extract_prefix(m: ContextModel, env: Map<u32, Value>, desc: u32, fields: Seq<Value>, k: int)
    requires
        env.contains_key(desc),
        env[desc] == Value::Composite(fields),
        fields.len() == RAY_DESC_FIELD_COUNT,
        desc < m.next_id,
        m.next_id + RAY_DESC_FIELD_COUNT <= u32::MAX,
        0 <= k <= RAY_DESC_FIELD_COUNT,
    ensures
        run(env, ray_desc_extracts(m, desc).take(k)).contains_key(desc),
        run(env, ray_desc_extracts(m, desc).take(k))[desc] == env[desc],
        forall|j: int|
            0 <= j < k ==> #[trigger] run(env, ray_desc_extracts(m, desc).take(k)).contains_key(
                (m.next_id + j) as u32,
            ),
        forall|j: int|
            0 <= j < k ==> #[trigger] run(env, ray_desc_extracts(m, desc).take(k))[(m.next_id + j) as u32]
                == fields[j],
    decreases k,
{
    if k > 0 {
        lemma_ray_desc_extract_prefix(m, env, desc, fields, k - 1);
        let s = ray_desc_extracts(m, desc).take(k);
        assert(s.drop_last() =~= ray_desc_extracts(m, desc).take(k - 1));
        let prev = run(env, s.drop_last());
        let id = (m.next_id + k - 1) as u32;
        assert(s.last() == ray_desc_extracts(m, desc)[k - 1]);
        assert(s.last().operands =~= seq![desc, (k - 1) as u32]);
        assert(run(env, s) == prev.insert(id, fields[k - 1]));
        let old_run = run(env, ray_desc_extracts(m, desc).take(k - 1));
        assert(prev == old_run);
        assert forall|j: int| 0 <= j < k implies #[trigger] run(env, s).contains_key(
            (m.next_id + j) as u32,
        ) by {
            if j < k - 1 {
                assert(old_run.contains_key((m.next_id + j) as u32));
            }
        }
        assert forall|j: int| 0 <= j < k implies #[trigger] run(env, s)[(m.next_id + j) as u32]
            == fields[j] by {
            if j < k - 1 {
                assert(old_run[(m.next_id + j) as u32] == fields[j]);
            }
        }
    } else {
        assert(ray_desc_extracts(m, desc).take(k) =~= Seq::<InstructionModel>::empty());
    }
}

/// Building a ray descriptor `desc` from six field values and then reading
/// it with the extracts of the lowering binds field `i`'s value, unchanged,
/// to the extract's result `m.next_id + i`, for every choice of values.
pub proof fn lemma_ray_desc_round_trip(
    m: ContextModel,
    env: Map<u32, Value>,
    ty: u32,
    desc: u32,
    parts: Seq<u32>,
)
    requires
        parts.len() == RAY_DESC_FIELD_COUNT,
        forall|i: int| 0 <= i < parts.len() ==> env.contains_key(#[trigger] parts[i]),
        desc < m.next_id,
        m.next_id + RAY_DESC_FIELD_COUNT <= u32::MAX,
    ensures
        forall|i: int|
            0 <= i < RAY_DESC_FIELD_COUNT ==> #[trigger] run(
                env,
                seq![composite_construct_model(ty, desc, parts)] + ray_desc_extracts(m, desc),
            )[(m.next_id + i) as u32] == env[parts[i]],
{
    let built = step(env, composite_construct_model(ty, desc, parts));
    let fields = parts.map_values(|o: u32| env[o]);
    let extracts = ray_desc_extracts(m, desc);
    let all = seq![composite_construct_model(ty, desc, parts)] + extracts;
    lemma_run_after(env, composite_construct_model(ty, desc, parts), extracts);
    lemma_ray_desc_extract_prefix(m, built, desc, fields, RAY_DESC_FIELD_COUNT as int);
    assert(extracts.take(RAY_DESC_FIELD_COUNT as int) =~= extracts);
}

/// Running one instruction and then `rest` is running them together.
proof fn lemma_run_after(env: Map<u32, Value>, first: InstructionModel, rest: Seq<InstructionModel>)
    ensures
        run(env, seq![first] + rest) == run(step(env, first), rest),
    decreases rest.len(),
{
    if rest.len() == 0 {
        assert((seq![first] + rest).drop_last() =~= Seq::<InstructionModel>::empty());
        assert(run(env, Seq::<InstructionModel>::empty()) == env);
    } else {
        lemma_run_after(env, first, rest.drop_last());
        assert((seq![first] + rest).drop_last() =~= seq![first] + rest.drop_last());
    }
}

} // verus!
