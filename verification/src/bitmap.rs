//! A 32-bit mask with single-bit operations, used for sound layer gating.

use vstd::prelude::*;

verus! {

/// A set of up to 32 flags packed into a `u32`.
#[derive(Clone, Copy, Debug)]
pub struct Bitmap {
    bits: u32,
}

impl Bitmap {
    /// The raw bit pattern, for use in contracts.
    pub closed spec fn bits(self) -> u32 {
        self.bits
    }

    pub fn new(init: u32) -> (r: Bitmap)
        ensures
            r.bits() == init,
    {
        Bitmap { bits: init }
    }

    /// The mask with no bit set.
    pub fn empty() -> (r: Bitmap)
        ensures
            r.bits() == 0u32,
    {
        Bitmap { bits: 0 }
    }

    /// The mask with every bit set.
    pub fn full() -> (r: Bitmap)
        ensures
            r.bits() == 0xffff_ffffu32,
    {
        Bitmap { bits: 0xffff_ffff }
    }

    /// Sets the given bit.
    pub fn on(&mut self, bit: u8)
        requires
            bit < 32,
        ensures
            final(self).bits() == (old(self).bits() | (1u32 << bit)),
    {
        self.bits = self.bits | (1u32 << bit);
    }

    /// Clears the given bit.
    pub fn off(&mut self, bit: u8)
        requires
            bit < 32,
        ensures
            final(self).bits() == (old(self).bits() & !(1u32 << bit)),
    {
        self.bits = self.bits & !(1u32 << bit);
    }

    /// Sets or clears the given bit.
    pub fn set(&mut self, bit: u8, value: bool)
        requires
            bit < 32,
        ensures
            final(self).bits() == (if value {
                old(self).bits() | (1u32 << bit)
            } else {
                old(self).bits() & !(1u32 << bit)
            }),
    {
        if value {
            self.on(bit)
        } else {
            self.off(bit)
        }
    }

    /// The mask with the given bit additionally set.
    pub fn with_on(self, bit: u8) -> (r: Bitmap)
        requires
            bit < 32,
        ensures
            r.bits() == (self.bits() | (1u32 << bit)),
    {
        Bitmap { bits: self.bits | (1u32 << bit) }
    }

    /// The mask with the given bit cleared.
    pub fn with_off(self, bit: u8) -> (r: Bitmap)
        requires
            bit < 32,
        ensures
            r.bits() == (self.bits() & !(1u32 << bit)),
    {
        Bitmap { bits: self.bits & !(1u32 << bit) }
    }

    /// The mask with the given bit set or cleared.
    pub fn with_set(self, bit: u8, value: bool) -> (r: Bitmap)
        requires
            bit < 32,
        ensures
            r.bits() == (if value {
                self.bits() | (1u32 << bit)
            } else {
                self.bits() & !(1u32 << bit)
            }),
    {
        if value {
            self.with_on(bit)
        } else {
            self.with_off(bit)
        }
    }

    /// Whether the given bit is set.
    pub fn get(&self, bit: u8) -> (r: bool)
        requires
            bit < 32,
        ensures
            r == ((self.bits() & (1u32 << bit)) != 0),
    {
        self.bits & (1u32 << bit) != 0
    }

    /// Whether the two masks share a set bit.
    pub fn intersects(&self, other: Bitmap) -> (r: bool)
        ensures
            r == ((self.bits() & other.bits()) != 0),
    {
        self.bits & other.bits != 0
    }
}

impl Default for Bitmap {
    /// The default mask is the empty one.
    fn default() -> (r: Bitmap)
        ensures
            r.bits() == 0u32,
    {
        Bitmap { bits: 0 }
    }
}

} // verus!
