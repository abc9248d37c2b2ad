//! The identifier allocator of one compilation context.

use vstd::prelude::*;

verus! {

/// Hands out result identifiers from one counter owned by the compilation
/// context. Identifiers are dense and strictly increasing.
pub struct IdAllocator {
    next: u32,
}

impl View for IdAllocator {
    type V = u32;

    /// The next identifier that `gen_id` will hand out.
    closed spec fn view(&self) -> u32 {
        self.next
    }
}

impl IdAllocator {
    /// An allocator whose first identifier is `first`: the identifiers below it
    /// were taken by earlier compilation stages.
    pub fn new(first: u32) -> (r: Self)
        ensures
            r@ == first,
    {
        IdAllocator { next: first }
    }

    /// The next identifier that `gen_id` will hand out.
    pub fn peek(&self) -> (r: u32)
        ensures
            r == self@,
    {
        self.next
    }

    /// Takes the next unused identifier.
    pub fn gen_id(&mut self) -> (r: u32)
        requires
            old(self)@ < u32::MAX,
        ensures
            r == old(self)@,
            final(self)@ == old(self)@ + 1,
    {
        let r = self.next;
        self.next = self.next + 1;
        r
    }
}

} // verus!
