//! The binary form of instructions: each one is a header word holding its
//! word count and opcode, then its result type, its result and its operands.

use vstd::prelude::*;
use crate::cache::Handle;
use crate::context::ContextModel;
use crate::instruction::{Block, Instruction, InstructionModel};
use crate::intersection::intersection_lowering;
use crate::query::ray_query_lowering;
use crate::ray::{RayQueryFunction, RayTracingFunction};
use crate::tracing::ray_tracing_lowering;

verus! {

pub open spec fn option_words(o: Option<u32>) -> Seq<u32> {
    match o {
        Some(w) => seq![w],
        None => Seq::empty(),
    }
}

/// The number of words `i` takes.
pub open spec fn word_count(i: InstructionModel) -> nat {
    1 + option_words(i.type_id).len() + option_words(i.result_id).len() + i.operands.len()
}

/// Whether the header word can hold `i`'s opcode and word count.
pub open spec fn is_encodable(i: InstructionModel) -> bool {
    i.op < 0x10000 && i.operands.len() < 0x10000 - 3
}

/// The words of one instruction.
pub open spec fn instruction_words(i: InstructionModel) -> Seq<u32> {
    seq![(word_count(i) * 0x10000 + i.op) as u32] + option_words(i.type_id) + option_words(i.result_id)
        + i.operands
}

/// The words of a run of instructions, in order.
pub open spec fn stream_words(s: Seq<InstructionModel>) -> Seq<u32>
    decreases s.len(),
{
    if s.len() == 0 {
        Seq::empty()
    } else {
        stream_words(s.drop_last()) + instruction_words(s.last())
    }
}

impl Instruction {
    /// Appends this instruction's words to `sink`.
    pub fn to_words(&self, sink: &mut Vec<u32>)
        requires
            is_encodable(self@),
        ensures
            final(sink)@ == old(sink)@ + instruction_words(self@),
    {
        let mut count: u32 = 1;
        if self.type_id.is_some() {
            count = count + 1;
        }
        if self.result_id.is_some() {
            count = count + 1;
        }
        count = count + self.operands.len() as u32;
        assert(count == word_count(self@));
        sink.push(count * 0x10000 + self.op);
        if let Some(ty) = self.type_id {
            sink.push(ty);
        }
        if let Some(id) = self.result_id {
            sink.push(id);
        }
        let ghost before = sink@;
        let mut i: usize = 0;
        while i < self.operands.len()
            invariant
                i <= self.operands@.len(),
                sink@ == before + self.operands@.take(i as int),
            decreases self.operands@.len() - i,
        {
            sink.push(self.operands[i]);
            assert(self.operands@.take(i as int + 1) =~= self.operands@.take(i as int).push(self.operands@[i as int]));
            assert(sink@ =~= before + self.operands@.take(i as int + 1));
            i = i + 1;
        }
        assert(self.operands@.take(self.operands@.len() as int) =~= self.operands@);
        assert(sink@ =~= old(sink)@ + instruction_words(self@));
    }
}

impl Block {
    /// Appends the words of every instruction, in order, to `sink`.
    pub fn to_words(&self, sink: &mut Vec<u32>)
        requires
            forall|i: int| 0 <= i < self@.len() ==> is_encodable(#[trigger] self@[i]),
        ensures
            final(sink)@ == old(sink)@ + stream_words(self@),
    {
        let mut i: usize = 0;
        while i < self.body.len()
            invariant
                i <= self@.len(),
                self@.len() == self.body@.len(),
                forall|j: int| 0 <= j < self@.len() ==> is_encodable(#[trigger] self@[j]),
                sink@ == old(sink)@ + stream_words(self@.take(i as int)),
            decreases self@.len() - i,
        {
            assert(self@[i as int] == self.body@[i as int]@);
            self.body[i].to_words(sink);
            assert(self@.take(i as int + 1).drop_last() =~= self@.take(i as int));
            assert(sink@ =~= old(sink)@ + stream_words(self@.take(i as int + 1)));
            i = i + 1;
        }
        assert(self@.take(self@.len() as int) =~= self@);
    }
}

/// Lowering is deterministic: from the same allocator state, declarations
/// table, value cache and type registry, the same operation succeeds or fails
/// alike, and a block that held the same instructions before holds the same
/// words after. What the module's declaration section held has no bearing.
pub proof fn lemma_lowering_deterministic(
    m1: ContextModel,
    m2: ContextModel,
    b1: Seq<InstructionModel>,
    b2: Seq<InstructionModel>,
    query: Handle,
    query_function: RayQueryFunction,
    tracing_function: RayTracingFunction,
)
    requires
        m1.next_id == m2.next_id,
        m1.decls == m2.decls,
        m1.cached == m2.cached,
        m1.ray_intersection == m2.ray_intersection,
        b1 == b2,
    ensures
        ray_query_lowering(m1, query, query_function) is Ok <==> ray_query_lowering(
            m2,
            query,
            query_function,
        ) is Ok,
        intersection_lowering(m1, query) is Ok <==> intersection_lowering(m2, query) is Ok,
        ray_tracing_lowering(m1, tracing_function) is Ok <==> ray_tracing_lowering(
            m2,
            tracing_function,
        ) is Ok,
        ray_query_lowering(m1, query, query_function) is Ok ==> stream_words(
            b1 + ray_query_lowering(m1, query, query_function)->Ok_0.1,
        ) == stream_words(b2 + ray_query_lowering(m2, query, query_function)->Ok_0.1),
        intersection_lowering(m1, query) is Ok ==> stream_words(
            b1 + intersection_lowering(m1, query)->Ok_0.1,
        ) == stream_words(b2 + intersection_lowering(m2, query)->Ok_0.1),
        ray_tracing_lowering(m1, tracing_function) is Ok ==> stream_words(
            b1 + ray_tracing_lowering(m1, tracing_function)->Ok_0.1,
        ) == stream_words(b2 + ray_tracing_lowering(m2, tracing_function)->Ok_0.1),
{
    if ray_query_lowering(m1, query, query_function) is Ok {
        assert(ray_query_lowering(m1, query, query_function)->Ok_0.1 =~= ray_query_lowering(
            m2,
            query,
            query_function,
        )->Ok_0.1);
    }
    if intersection_lowering(m1, query) is Ok {
        assert(intersection_lowering(m1, query)->Ok_0.1 =~= intersection_lowering(m2, query)->Ok_0.1);
    }
    if ray_tracing_lowering(m1, tracing_function) is Ok {
        assert(ray_tracing_lowering(m1, tracing_function)->Ok_0.1 =~= ray_tracing_lowering(
            m2,
            tracing_function,
        )->Ok_0.1);
    }
}

/// Every instruction that lowering emits fits its header word, so the block
/// it appends to can be written out as words.
pub proof fn lemma_lowering_encodable(
    m: ContextModel,
    query: Handle,
    query_function: RayQueryFunction,
    tracing_function: RayTracingFunction,
)
    ensures
        ray_query_lowering(m, query, query_function) is Ok ==> forall|i: int|
            0 <= i < ray_query_lowering(m, query, query_function)->Ok_0.1.len() ==> is_encodable(
                #[trigger] ray_query_lowering(m, query, query_function)->Ok_0.1[i],
            ),
        intersection_lowering(m, query) is Ok ==> forall|i: int|
            0 <= i < intersection_lowering(m, query)->Ok_0.1.len() ==> is_encodable(
                #[trigger] intersection_lowering(m, query)->Ok_0.1[i],
            ),
        ray_tracing_lowering(m, tracing_function) is Ok ==> forall|i: int|
            0 <= i < ray_tracing_lowering(m, tracing_function)->Ok_0.1.len() ==> is_encodable(
                #[trigger] ray_tracing_lowering(m, tracing_function)->Ok_0.1[i],
            ),
{
}

} // verus!
