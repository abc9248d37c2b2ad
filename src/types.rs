//! The declaration interner: structural type descriptions and `u32`
//! constants resolve to one identifier each, module-wide.

use vstd::prelude::*;
use crate::ids::IdAllocator;

verus! {

#[derive(Clone, Copy, Debug, PartialEq, Eq, Structural)]
pub enum ScalarKind {
    Bool,
    U32,
    F32,
}

/// A structural type description. Two descriptions name the same type
/// exactly when they are equal.
#[derive(Clone, Copy, Debug, PartialEq, Eq, Structural)]
pub enum TypeKey {
    Scalar(ScalarKind),
    Vector { size: u8, scalar: ScalarKind },
    /// A float matrix of `columns` column vectors of `rows` components each,
    /// every component `width` bytes wide.
    Matrix { columns: u8, rows: u8, width: u8 },
    /// A pointer into storage class `class` to the type with identifier `base`.
    Pointer { base: u32, class: u32 },
    /// A type of the IR module's type arena, by its handle.
    Handle(u32),
}

/// What the interner gives identifiers to: types, and `u32` constants.
#[derive(Clone, Copy, Debug, PartialEq, Eq, Structural)]
pub enum DeclKey {
    Type(TypeKey),
    ConstantU32(u32),
}

/// One declaration record: the identifier allocated for a key.
#[derive(Clone, Copy, Debug, PartialEq, Eq, Structural)]
pub struct Declaration {
    pub key: DeclKey,
    pub id: u32,
}

/// The identifier recorded for `key`: that of its first declaration.
pub open spec fn find(decls: Seq<Declaration>, key: DeclKey) -> Option<u32>
    decreases decls.len(),
{
    if decls.len() == 0 {
        None
    } else if decls[0].key == key {
        Some(decls[0].id)
    } else {
        find(decls.drop_first(), key)
    }
}

/// The identifier of `key`, where it is declared.
pub open spec fn id_of(decls: Seq<Declaration>, key: DeclKey) -> u32 {
    match find(decls, key) {
        Some(id) => id,
        None => 0,
    }
}

/// The declarations after interning `key` with `next` as the next free
/// identifier: unchanged where `key` is declared, else one record appended.
pub open spec fn intern_decls(decls: Seq<Declaration>, next: u32, key: DeclKey) -> Seq<Declaration> {
    match find(decls, key) {
        Some(_) => decls,
        None => decls.push(Declaration { key, id: next }),
    }
}

/// How many identifiers interning `key` takes from the allocator.
pub open spec fn intern_cost(decls: Seq<Declaration>, key: DeclKey) -> u32 {
    match find(decls, key) {
        Some(_) => 0,
        None => 1,
    }
}

/// Appending a declaration changes no key's identifier but that of a key
/// that was not declared before.
pub proof fn lemma_find_push(decls: Seq<Declaration>, d: Declaration, key: DeclKey)
    ensures
        find(decls.push(d), key) == (match find(decls, key) {
            Some(id) => Some(id),
            None => if d.key == key { Some(d.id) } else { None },
        }),
    decreases decls.len(),
{
    if decls.len() == 0 {
        assert(decls.push(d).drop_first() =~= decls);
    } else {
        assert(decls.push(d).drop_first() =~= decls.drop_first().push(d));
        lemma_find_push(decls.drop_first(), d, key);
    }
}

/// Interning one key leaves the identifier of every declared key as it was.
pub proof fn lemma_intern_keeps(decls: Seq<Declaration>, next: u32, key: DeclKey, other: DeclKey)
    requires
        find(decls, other) is Some,
    ensures
        find(intern_decls(decls, next, key), other) == find(decls, other),
{
    if find(decls, key) is None {
        lemma_find_push(decls, Declaration { key, id: next }, other);
    }
}

/// After interning, the key is declared, under its old identifier if it had
/// one and under `next` if not.
pub proof fn lemma_intern_declares(decls: Seq<Declaration>, next: u32, key: DeclKey)
    ensures
        find(intern_decls(decls, next, key), key) == (match find(decls, key) {
            Some(id) => Some(id),
            None => Some(next),
        }),
{
    if find(decls, key) is None {
        lemma_find_push(decls, Declaration { key, id: next }, key);
    }
}

/// The module's declaration table.
pub struct TypeInterner {
    decls: Vec<Declaration>,
}

impl View for TypeInterner {
    type V = Seq<Declaration>;

    closed spec fn view(&self) -> Seq<Declaration> {
        self.decls@
    }
}

impl TypeInterner {
    pub fn new() -> (r: Self)
        ensures
            r@ == Seq::<Declaration>::empty(),
    {
        TypeInterner { decls: Vec::new() }
    }

    /// The number of declaration records.
    pub fn len(&self) -> (r: usize)
        ensures
            r == self@.len(),
    {
        self.decls.len()
    }

    /// The identifier declared for `key`, if any.
    pub fn lookup(&self, key: DeclKey) -> (r: Option<u32>)
        ensures
            r == find(self@, key),
    {
        let mut i: usize = 0;
        assert(self@.subrange(0, self@.len() as int) =~= self@);
        while i < self.decls.len()
            invariant
                0 <= i <= self@.len(),
                find(self@, key) == find(self@.subrange(i as int, self@.len() as int), key),
            decreases self@.len() - i,
        {
            let d = self.decls[i];
            assert(self@.subrange(i as int, self@.len() as int)[0] == d);
            if d.key == key {
                return Some(d.id);
            }
            assert(self@.subrange(i as int, self@.len() as int).drop_first()
                =~= self@.subrange(i as int + 1, self@.len() as int));
            i = i + 1;
        }
        assert(self@.subrange(i as int, self@.len() as int) =~= Seq::<Declaration>::empty());
        None
    }

    /// Resolves `key` to its identifier, allocating one and recording the
    /// declaration on first use.
    pub fn intern(&mut self, ids: &mut IdAllocator, key: DeclKey) -> (r: u32)
        requires
            old(ids)@ < u32::MAX,
        ensures
            final(self)@ == intern_decls(old(self)@, old(ids)@, key),
            final(ids)@ == old(ids)@ + intern_cost(old(self)@, key),
            find(final(self)@, key) == Some(r),
            r == id_of(final(self)@, key),
    {
        proof {
            lemma_intern_declares(old(self)@, old(ids)@, key);
        }
        match self.lookup(key) {
            Some(id) => id,
            None => {
                let id = ids.gen_id();
                self.decls.push(Declaration { key, id });
                id
            },
        }
    }
}

} // verus!
