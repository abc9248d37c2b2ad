//! The compilation state that lowering threads through: identifier
//! allocator, declaration interner, value cache, the module's declaration
//! section and the registry of special IR types.

use vstd::prelude::*;
use crate::cache::ValueCache;
use crate::ids::IdAllocator;
use crate::instruction::{Block, InstructionModel};
use crate::types::{
    find, id_of, intern_cost, intern_decls, lemma_intern_declares, lemma_intern_keeps, DeclKey,
    Declaration, TypeInterner,
};

verus! {

/// The mathematical content of a `BlockContext`.
pub struct ContextModel {
    pub next_id: u32,
    pub decls: Seq<Declaration>,
    pub cached: Seq<Option<u32>>,
    pub declarations: Seq<InstructionModel>,
    pub ray_intersection: Option<u32>,
}

/// The state after interning `key`.
pub open spec fn intern(m: ContextModel, key: DeclKey) -> ContextModel {
    ContextModel {
        next_id: (m.next_id + intern_cost(m.decls, key)) as u32,
        decls: intern_decls(m.decls, m.next_id, key),
        ..m
    }
}

/// The identifier of a declared key.
pub open spec fn type_id(m: ContextModel, key: DeclKey) -> u32 {
    id_of(m.decls, key)
}

/// The state after `count` identifiers have been taken.
pub open spec fn take_ids(m: ContextModel, count: u32) -> ContextModel {
    ContextModel { next_id: (m.next_id + count) as u32, ..m }
}

/// Room for every identifier that one lowering step can take.
pub open spec fn has_id_room(m: ContextModel) -> bool {
    m.next_id <= u32::MAX - 32
}

/// Requesting the same key twice yields one identifier and at most one
/// declaration record: the second request changes nothing.
pub proof fn lemma_intern_idempotent(m: ContextModel, key: DeclKey)
    requires
        m.next_id < u32::MAX,
    ensures
        intern(intern(m, key), key) == intern(m, key),
        type_id(intern(intern(m, key), key), key) == type_id(intern(m, key), key),
        intern(m, key).decls.len() <= m.decls.len() + 1,
        intern(m, key).next_id <= m.next_id + 1,
{
    lemma_intern_declares(m.decls, m.next_id, key);
}

/// Compilation state with exclusive access for the lowering of one function.
pub struct BlockContext {
    pub ids: IdAllocator,
    pub types: TypeInterner,
    pub cached: ValueCache,
    /// The module's declaration section, where global variables and pointer
    /// types that lowering introduces are written.
    pub declarations: Block,
    /// The IR type handle registered for the ray intersection composite.
    pub ray_intersection: Option<u32>,
}

impl View for BlockContext {
    type V = ContextModel;

    open spec fn view(&self) -> ContextModel {
        ContextModel {
            next_id: self.ids@,
            decls: self.types@,
            cached: self.cached@,
            declarations: self.declarations@,
            ray_intersection: self.ray_intersection,
        }
    }
}

impl BlockContext {
    /// A context whose identifiers start at `first_id`, for a function of
    /// `expression_count` expressions, none lowered yet.
    pub fn new(first_id: u32, expression_count: usize, ray_intersection: Option<u32>) -> (r: Self)
        ensures
            r@.next_id == first_id,
            r@.decls == Seq::<Declaration>::empty(),
            r@.cached == Seq::new(expression_count as nat, |i: int| None::<u32>),
            r@.declarations == Seq::<InstructionModel>::empty(),
            r@.ray_intersection == ray_intersection,
    {
        BlockContext {
            ids: IdAllocator::new(first_id),
            types: TypeInterner::new(),
            cached: ValueCache::new(expression_count),
            declarations: Block::new(),
            ray_intersection,
        }
    }

    /// Takes the next unused identifier.
    pub fn gen_id(&mut self) -> (r: u32)
        requires
            old(self)@.next_id < u32::MAX,
        ensures
            r == old(self)@.next_id,
            final(self)@ == take_ids(old(self)@, 1),
    {
        self.ids.gen_id()
    }

    /// The identifier of `key`, declared on first use.
    pub fn get_type_id(&mut self, key: DeclKey) -> (r: u32)
        requires
            old(self)@.next_id < u32::MAX,
        ensures
            final(self)@ == intern(old(self)@, key),
            r == type_id(final(self)@, key),
            find(final(self)@.decls, key) == Some(r),
            forall|k: DeclKey|
                find(old(self)@.decls, k) is Some ==> #[trigger] find(final(self)@.decls, k) == find(
                    old(self)@.decls,
                    k,
                ),
    {
        let r = self.types.intern(&mut self.ids, key);
        proof {
            assert forall|k: DeclKey| find(old(self)@.decls, k) is Some implies #[trigger] find(
                self@.decls,
                k,
            ) == find(old(self)@.decls, k) by {
                lemma_intern_keeps(old(self)@.decls, old(self)@.next_id, key, k);
            }
        }
        r
    }
}

} // verus!
