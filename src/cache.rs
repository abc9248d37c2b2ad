//! The value cache: the identifier that each lowered IR expression produced.

use vstd::prelude::*;

verus! {

/// A dense index into a function's expression arena.
#[derive(Clone, Copy, Debug, PartialEq, Eq, Structural)]
pub struct Handle {
    pub index: usize,
}

/// The identifier cached for `h`, if its expression has been lowered.
pub open spec fn cached_id(cache: Seq<Option<u32>>, h: Handle) -> Option<u32> {
    if h.index < cache.len() {
        cache[h.index as int]
    } else {
        None
    }
}

/// Whether `h` names an expression of the arena that has no identifier yet.
pub open spec fn is_vacant(cache: Seq<Option<u32>>, h: Handle) -> bool {
    h.index < cache.len() && cache[h.index as int] is None
}

/// A table parallel to the expression arena. An entry is written once, when
/// its expression is lowered, and never changed after.
pub struct ValueCache {
    ids: Vec<Option<u32>>,
}

impl View for ValueCache {
    type V = Seq<Option<u32>>;

    closed spec fn view(&self) -> Seq<Option<u32>> {
        self.ids@
    }
}

impl ValueCache {
    /// A cache for an arena of `expression_count` expressions, none lowered.
    pub fn new(expression_count: usize) -> (r: Self)
        ensures
            r@ == Seq::new(expression_count as nat, |i: int| None::<u32>),
    {
        let mut ids: Vec<Option<u32>> = Vec::new();
        let mut i: usize = 0;
        while i < expression_count
            invariant
                i <= expression_count,
                ids@ =~= Seq::new(i as nat, |j: int| None::<u32>),
            decreases expression_count - i,
        {
            ids.push(None);
            i = i + 1;
        }
        ValueCache { ids }
    }

    pub fn len(&self) -> (r: usize)
        ensures
            r == self@.len(),
    {
        self.ids.len()
    }

    /// The identifier of `h`'s lowered value, if there is one.
    pub fn get(&self, h: Handle) -> (r: Option<u32>)
        ensures
            r == cached_id(self@, h),
    {
        if h.index < self.ids.len() {
            self.ids[h.index]
        } else {
            None
        }
    }

    /// Whether `h` can still receive its identifier.
    pub fn is_vacant(&self, h: Handle) -> (r: bool)
        ensures
            r == is_vacant(self@, h),
    {
        h.index < self.ids.len() && self.ids[h.index].is_none()
    }

    /// Records the identifier of `h`'s value.
    pub fn insert(&mut self, h: Handle, id: u32)
        requires
            is_vacant(old(self)@, h),
        ensures
            final(self)@ == old(self)@.update(h.index as int, Some(id)),
    {
        self.ids.set(h.index, Some(id));
    }
}

} // verus!
