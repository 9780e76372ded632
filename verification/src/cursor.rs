//! The bump cursor of an instance: offsets only ever move forward, and all
//! of them are given up at once by a reset.

use vstd::prelude::*;

verus! {

/// The next free offset in an instance's memory. Offsets travel as 32-bit
/// integers, so the cursor never passes `u32::MAX`.
#[derive(Clone, Copy, Debug, PartialEq, Eq, Structural)]
pub struct MemoryCursor {
    offset: u32,
}

impl View for MemoryCursor {
    type V = nat;

    closed spec fn view(&self) -> nat {
        self.offset as nat
    }
}

impl MemoryCursor {
    /// The cursor after a reset.
    pub closed spec fn rewound(self) -> MemoryCursor {
        MemoryCursor { offset: 0 }
    }

    /// Whether `size` more bytes can still be addressed.
    pub open spec fn has_room(self, size: u32) -> bool {
        self@ + size <= u32::MAX
    }

    /// The offset that an allocation of `size` bytes returns, and the cursor
    /// it leaves.
    pub closed spec fn bumped(self, size: u32) -> (u32, MemoryCursor)
        recommends
            self.has_room(size),
    {
        (self.offset, MemoryCursor { offset: (self.offset + size) as u32 })
    }

    /// The cursor's view never exceeds what 32 bits address.
    pub proof fn lemma_bounded(self)
        ensures
            self@ <= u32::MAX,
    {
    }

    /// What `rewound` and `bumped` mean for the view.
    pub proof fn lemma_views(self, size: u32)
        ensures
            self.rewound()@ == 0,
            self.bumped(size).0 == self@,
            self.has_room(size) ==> self.bumped(size).1@ == self@ + size,
    {
    }

    /// Reset law: the first allocation after a reset starts at offset 0,
    /// wherever the cursor stood before.
    pub proof fn lemma_reset_then_allocate(self, size: u32)
        ensures
            self.rewound().bumped(size).0 == 0,
            self.rewound().bumped(size).1@ == size,
    {
    }

    /// A cursor at offset 0.
    pub fn start() -> (cursor: MemoryCursor)
        ensures
            cursor@ == 0,
    {
        MemoryCursor { offset: 0 }
    }

    /// The next free offset.
    pub fn position(&self) -> (offset: u32)
        ensures
            offset == self@,
    {
        self.offset
    }

    /// Gives every offset handed out so far up again.
    pub fn reset(&mut self)
        ensures
            *final(self) == old(self).rewound(),
            final(self)@ == 0,
    {
        self.offset = 0;
    }

    /// Hands out the next `size` bytes, or nothing when they could not be
    /// addressed.
    pub fn advance(&mut self, size: u32) -> (start: Option<u32>)
        ensures
            match start {
                Some(offset) => {
                    &&& old(self).has_room(size)
                    &&& (offset, *final(self)) == old(self).bumped(size)
                    &&& offset == old(self)@
                    &&& final(self)@ == old(self)@ + size
                },
                None => !old(self).has_room(size) && *final(self) == *old(self),
            },
    {
        if size > u32::MAX - self.offset {
            return None;
        }
        let offset: u32 = self.offset;
        self.offset = offset + size;
        Some(offset)
    }
}

} // verus!
