//! The flag descriptor: a mask over a cell, whose lowest set bit gives the
//! position of the field.
use vstd::prelude::*;
use crate::unsigned::{Unsigned, low_ones};

verus! {

/// A named field of a cell of type `T`, given by the mask of its bits.
///
/// The mask is expected to be non-zero; its bits need not be contiguous.
/// A zero mask is accepted: its shift is the width of `T`, reading it gives
/// zero and writing through it leaves the cell as it is.
///
/// Descriptors are plain values; they are usually declared as constants next
/// to the type whose cell they describe, as `Flag { mask: 0b1111_0000u8 }`.
#[derive(Clone, Copy, Debug)]
pub struct Flag<T: Unsigned> {
    /// The bits of the cell that belong to the field.
    pub mask: T,
}

impl<T: Unsigned> Flag<T> {
    /// The position of the lowest set bit of the mask (the width for zero).
    pub open spec fn spec_shift(self) -> u32 {
        self.mask.spec_trailing_zeros()
    }

    /// The bits of the field in `cell`, moved down to bit 0.
    pub open spec fn field_of(self, cell: u64) -> u64 {
        let s = self.spec_shift();
        if s < T::width() {
            (cell & self.mask.bits()) >> s
        } else {
            0
        }
    }

    /// The mask moved down to bit 0: the bits a field value may use.
    pub open spec fn field_mask(self) -> u64 {
        self.field_of(self.mask.bits())
    }

    /// `value` has no bit outside the field once moved into place.
    pub open spec fn fits(self, value: u64) -> bool {
        value & !self.field_mask() == 0
    }

    /// `value` moved up to the field's position; bits pushed past the width
    /// are lost, and nothing else is masked off.
    pub open spec fn placed(self, value: u64) -> u64 {
        let s = self.spec_shift();
        if s < T::width() {
            (value << s) & low_ones(T::width())
        } else {
            0
        }
    }

    /// `cell` with every bit of the mask cleared.
    pub open spec fn cleared(self, cell: u64) -> u64 {
        cell & !self.mask.bits()
    }

    /// `cell` with the field cleared and then `value` or-ed into place.
    pub open spec fn with_field(self, cell: u64, value: u64) -> u64 {
        self.cleared(cell) | self.placed(value)
    }

    /// `cell` with the bits of `value` or-ed into the field's place.
    pub open spec fn with_bits_on(self, cell: u64, value: u64) -> u64 {
        cell | self.placed(value)
    }

    /// `cell` with the field's bits that are set in `value` turned off.
    pub open spec fn with_bits_off(self, cell: u64, value: u64) -> u64 {
        self.with_field(cell, !value & self.field_of(cell))
    }

    /// A descriptor for the field of the bits set in `mask`.
    pub fn new(mask: T) -> (r: Self)
        ensures
            r.mask == mask,
    {
        Flag { mask }
    }

    /// The index of the lowest set bit of the mask; the width of `T` for a
    /// zero mask.
    pub fn shift(&self) -> (r: usize)
        ensures
            r == self.spec_shift(),
            self.mask.bits() != 0 ==> r < T::width(),
            self.mask.bits() != 0 ==> (self.mask.bits() >> self.spec_shift()) & 1 == 1,
            self.mask.bits() != 0 ==> (self.mask.bits() >> self.spec_shift()) << self.spec_shift()
                == self.mask.bits(),
            self.mask.bits() == 0 ==> r == T::width(),
    {
        proof {
            T::lemma_trailing_zeros(self.mask);
        }
        self.mask.trailing_zeros() as usize
    }
}

} // verus!
