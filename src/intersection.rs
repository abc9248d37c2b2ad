//! Reading the committed intersection of a ray query into the ray
//! intersection composite.

use vstd::prelude::*;
use crate::cache::{cached_id, Handle};
use crate::context::{has_id_room, intern, take_ids, type_id, BlockContext, ContextModel};
use crate::instruction::{
    composite_construct_model, ray_query_get_intersection_model, Block, Instruction,
    InstructionModel,
};
use crate::opcodes::{
    committed_intersection, op_get_intersection_barycentrics, op_get_intersection_front_face,
    op_get_intersection_geometry_index, op_get_intersection_instance_custom_index,
    op_get_intersection_instance_id, op_get_intersection_object_to_world,
    op_get_intersection_primitive_index, op_get_intersection_sbt_record_offset,
    op_get_intersection_t, op_get_intersection_type, op_get_intersection_world_to_object,
};
use crate::ray::{bool_key, f32_key, u32_key, LowerError};
use crate::types::{find, DeclKey, ScalarKind, TypeKey};

verus! {

/// Number of fields of the ray intersection composite.
pub const RAY_INTERSECTION_FIELD_COUNT: u32 = 11;

pub open spec fn vec2_key() -> DeclKey {
    DeclKey::Type(TypeKey::Vector { size: 2, scalar: ScalarKind::F32 })
}

/// The type of the two transforms: four columns of three `f32` each.
pub open spec fn transform_key() -> DeclKey {
    DeclKey::Type(TypeKey::Matrix { columns: 4, rows: 3, width: 4 })
}

/// The opcode that reads field `i` of the ray intersection composite, whose
/// fields are, in order: kind, distance `t`, instance custom index, instance
/// id, shader binding table record offset, geometry index, primitive index,
/// barycentrics, front face, object-to-world and world-to-object.
pub open spec fn intersection_field_op(i: int) -> u32 {
    if i == 0 {
        4479
    } else if i == 1 {
        6018
    } else if i == 2 {
        6019
    } else if i == 3 {
        6020
    } else if i == 4 {
        6021
    } else if i == 5 {
        6022
    } else if i == 6 {
        6023
    } else if i == 7 {
        6024
    } else if i == 8 {
        6025
    } else if i == 9 {
        6031
    } else {
        6032
    }
}

/// The type of field `i` of the ray intersection composite.
pub open spec fn intersection_field_key(i: int) -> DeclKey {
    if i == 1 {
        f32_key()
    } else if i == 7 {
        vec2_key()
    } else if i == 8 {
        bool_key()
    } else if i >= 9 {
        transform_key()
    } else {
        u32_key()
    }
}

/// The opcode and type of field `i` of the ray intersection composite.
pub fn intersection_field(i: u32) -> (r: (u32, DeclKey))
    requires
        i < RAY_INTERSECTION_FIELD_COUNT,
    ensures
        r.0 == intersection_field_op(i as int),
        r.1 == intersection_field_key(i as int),
{
    let word = DeclKey::Type(TypeKey::Scalar(ScalarKind::U32));
    if i == 0 {
        (op_get_intersection_type(), word)
    } else if i == 1 {
        (op_get_intersection_t(), DeclKey::Type(TypeKey::Scalar(ScalarKind::F32)))
    } else if i == 2 {
        (op_get_intersection_instance_custom_index(), word)
    } else if i == 3 {
        (op_get_intersection_instance_id(), word)
    } else if i == 4 {
        (op_get_intersection_sbt_record_offset(), word)
    } else if i == 5 {
        (op_get_intersection_geometry_index(), word)
    } else if i == 6 {
        (op_get_intersection_primitive_index(), word)
    } else if i == 7 {
        (
            op_get_intersection_barycentrics(),
            DeclKey::Type(TypeKey::Vector { size: 2, scalar: ScalarKind::F32 }),
        )
    } else if i == 8 {
        (op_get_intersection_front_face(), DeclKey::Type(TypeKey::Scalar(ScalarKind::Bool)))
    } else if i == 9 {
        (
            op_get_intersection_object_to_world(),
            DeclKey::Type(TypeKey::Matrix { columns: 4, rows: 3, width: 4 }),
        )
    } else {
        (
            op_get_intersection_world_to_object(),
            DeclKey::Type(TypeKey::Matrix { columns: 4, rows: 3, width: 4 }),
        )
    }
}

/// The selector constant for the committed intersection.
pub open spec fn committed_key() -> DeclKey {
    DeclKey::ConstantU32(1)
}

/// The state once the field types, the composite's type `ty` and the
/// committed-intersection selector are declared.
pub open spec fn intersection_types(m: ContextModel, ty: u32) -> ContextModel {
    let fields = intern(
        intern(intern(intern(intern(m, u32_key()), f32_key()), vec2_key()), bool_key()),
        transform_key(),
    );
    intern(intern(fields, DeclKey::Type(TypeKey::Handle(ty))), committed_key())
}

/// The eleven field reads from query `query_id`, field `i` into identifier
/// `m.next_id + i`, where `m` holds the types.
pub open spec fn intersection_reads(m: ContextModel, query_id: u32) -> Seq<InstructionModel> {
    Seq::new(
        RAY_INTERSECTION_FIELD_COUNT as nat,
        |i: int| ray_query_get_intersection_model(
            intersection_field_op(i),
            type_id(m, intersection_field_key(i)),
            (m.next_id + i) as u32,
            query_id,
            type_id(m, committed_key()),
        ),
    )
}

/// The identifiers `first`, `first + 1`, ..., `count` of them.
pub open spec fn id_run(first: u32, count: nat) -> Seq<u32> {
    Seq::new(count, |i: int| (first + i) as u32)
}

/// What reading the committed intersection of `query` does from state `m`:
/// the state after it, the instructions it appends and the identifier of
/// the composite, or the error it stops on.
pub open spec fn intersection_lowering(m: ContextModel, query: Handle) -> Result<
    (ContextModel, Seq<InstructionModel>, u32),
    LowerError,
> {
    match (cached_id(m.cached, query), m.ray_intersection) {
        (None, _) => Err(LowerError::MissingOperand(query)),
        (_, None) => Err(LowerError::MissingRayIntersectionType),
        (Some(query_id), Some(ty)) => {
            let t = intersection_types(m, ty);
            let n = t.next_id;
            let id = (n + RAY_INTERSECTION_FIELD_COUNT) as u32;
            Ok(
                (
                    take_ids(t, (RAY_INTERSECTION_FIELD_COUNT + 1) as u32),
                    intersection_reads(t, query_id).push(
                        composite_construct_model(
                            type_id(t, DeclKey::Type(TypeKey::Handle(ty))),
                            id,
                            id_run(n, RAY_INTERSECTION_FIELD_COUNT as nat),
                        ),
                    ),
                    id,
                ),
            )
        },
    }
}

/// Reading an intersection emits eleven attribute reads, field `i` by the
/// opcode that the layout gives it and into its own fresh identifier, then
/// one composite construct whose operands are those eleven results in the
/// same order and whose result is the identifier returned.
pub proof fn lemma_intersection_order(m: ContextModel, query: Handle)
    requires
        has_id_room(m),
    ensures
        match intersection_lowering(m, query) {
            Ok((after, emitted, id)) => {
                &&& emitted.len() == RAY_INTERSECTION_FIELD_COUNT + 1
                &&& forall|i: int|
                    0 <= i < RAY_INTERSECTION_FIELD_COUNT ==> (#[trigger] emitted[i]).op
                        == intersection_field_op(i) && emitted[i].result_id is Some
                        && m.next_id <= emitted[i].result_id->0 < id
                &&& emitted[RAY_INTERSECTION_FIELD_COUNT as int].op == 80
                &&& emitted[RAY_INTERSECTION_FIELD_COUNT as int].result_id == Some(id)
                &&& emitted[RAY_INTERSECTION_FIELD_COUNT as int].operands == Seq::new(
                    RAY_INTERSECTION_FIELD_COUNT as nat,
                    |i: int| emitted[i].result_id->0,
                )
                &&& id < after.next_id
            },
            Err(_) => true,
        },
{
    if let Ok((after, emitted, id)) = intersection_lowering(m, query) {
        assert(emitted[RAY_INTERSECTION_FIELD_COUNT as int].operands =~= Seq::new(
            RAY_INTERSECTION_FIELD_COUNT as nat,
            |i: int| emitted[i].result_id->0,
        ));
    }
}

impl BlockContext {
    /// Reads the eleven attributes of the committed intersection of `query`,
    /// in the composite's field order, and builds the ray intersection
    /// composite from them; returns the composite's identifier.
    pub fn write_ray_query_get_intersection(&mut self, query: Handle, block: &mut Block) -> (r: Result<
        u32,
        LowerError,
    >)
        requires
            has_id_room(old(self)@),
        ensures
            match intersection_lowering(old(self)@, query) {
                Ok((m, emitted, id)) => {
                    &&& r == Ok::<u32, LowerError>(id)
                    &&& final(self)@ == m
                    &&& final(block)@ == old(block)@ + emitted
                },
                Err(e) => {
                    &&& r == Err::<u32, LowerError>(e)
                    &&& final(self)@ == old(self)@
                    &&& final(block)@ == old(block)@
                },
            },
    {
        let query_id = match self.cached.get(query) {
            Some(id) => id,
            None => return Err(LowerError::MissingOperand(query)),
        };
        let ty = match self.ray_intersection {
            Some(ty) => ty,
            None => return Err(LowerError::MissingRayIntersectionType),
        };
        self.get_type_id(DeclKey::Type(TypeKey::Scalar(ScalarKind::U32)));
        self.get_type_id(DeclKey::Type(TypeKey::Scalar(ScalarKind::F32)));
        self.get_type_id(DeclKey::Type(TypeKey::Vector { size: 2, scalar: ScalarKind::F32 }));
        self.get_type_id(DeclKey::Type(TypeKey::Scalar(ScalarKind::Bool)));
        self.get_type_id(DeclKey::Type(TypeKey::Matrix { columns: 4, rows: 3, width: 4 }));
        let intersection_type_id = self.get_type_id(DeclKey::Type(TypeKey::Handle(ty)));
        let committed_id = self.get_type_id(DeclKey::ConstantU32(committed_intersection()));
        let ghost t = self@;
        let ghost b0 = block@;
        assert(t == intersection_types(old(self)@, ty));
        let first = self.ids.peek();
        let mut parts: Vec<u32> = Vec::new();
        let mut i: u32 = 0;
        while i < RAY_INTERSECTION_FIELD_COUNT
            invariant
                i <= RAY_INTERSECTION_FIELD_COUNT,
                first == t.next_id,
                t.next_id <= u32::MAX - 20,
                self@ == take_ids(t, i),
                find(t.decls, u32_key()) is Some,
                find(t.decls, f32_key()) is Some,
                find(t.decls, vec2_key()) is Some,
                find(t.decls, bool_key()) is Some,
                find(t.decls, transform_key()) is Some,
                committed_id == type_id(t, committed_key()),
                block@ == b0 + intersection_reads(t, query_id).take(i as int),
                parts@ == id_run(first, i as nat),
            decreases RAY_INTERSECTION_FIELD_COUNT - i,
        {
            let (op, key) = intersection_field(i);
            let field_type_id = self.get_type_id(key);
            let id = self.gen_id();
            block.push(Instruction::ray_query_get_intersection(op, field_type_id, id, query_id, committed_id));
            parts.push(id);
            proof {
                assert(intersection_reads(t, query_id).take(i as int + 1) =~= intersection_reads(
                    t,
                    query_id,
                ).take(i as int).push(intersection_reads(t, query_id)[i as int]));
                assert(block@ =~= b0 + intersection_reads(t, query_id).take(i as int + 1));
                assert(parts@ =~= id_run(first, i as nat + 1));
            }
            i = i + 1;
        }
        assert(intersection_reads(t, query_id).take(11) =~= intersection_reads(t, query_id));
        let id = self.gen_id();
        block.push(Instruction::composite_construct(intersection_type_id, id, parts));
        Ok(id)
    }
}

} // verus!
