//! Reading and writing flags of a type that owns one backing cell.
use vstd::prelude::*;
use crate::flag::Flag;
use crate::unsigned::{Unsigned, low_ones};

verus! {

/// Facts on the 64-bit models of a cell and a flag that every operation
/// relies on: both fit in the width, and the mask's shift locates its lowest
/// set bit.
pub(crate) proof fn lemma_cell_and_flag<T: Unsigned>(cell: T, flag: Flag<T>)
    ensures
        T::width() == 8 || T::width() == 16 || T::width() == 32 || T::width() == 64,
        cell.bits() & low_ones(T::width()) == cell.bits(),
        flag.mask.bits() & low_ones(T::width()) == flag.mask.bits(),
        flag.spec_shift() <= T::width(),
        flag.mask.bits() == 0 <==> flag.spec_shift() == T::width(),
        flag.spec_shift() < T::width() ==> (flag.mask.bits() >> flag.spec_shift())
            << flag.spec_shift() == flag.mask.bits(),
{
    T::lemma_model(cell, cell);
    T::lemma_model(flag.mask, flag.mask);
    T::lemma_trailing_zeros(flag.mask);
}

/// A value backed by one unsigned cell, which it can read and overwrite.
///
/// Implementors give `cell`, `read` and `write`; the flag operations are
/// provided. `cell` is the content of the cell as contracts see it; outside
/// verified code it is written with the same body as `read`.
/// `set_flag` and `set_on` do not narrow their value to the field: bits of
/// the value beyond the field's width land in the neighbouring bits of the
/// cell, so callers pass values that fit the field.
pub trait Bitbite {
    /// The unsigned integer type of the backing cell.
    type Unit: Unsigned;

    /// The current content of the backing cell.
    spec fn cell(&self) -> Self::Unit;

    /// Reads the backing cell.
    fn read(&self) -> (r: Self::Unit)
        ensures
            r == self.cell(),
    ;

    /// Overwrites the backing cell.
    fn write(&mut self, value: Self::Unit)
        ensures
            final(self).cell() == value,
    ;

    /// The value of the field, moved down to bit 0: `(cell & mask) >> shift`.
    fn get_flag(&self, flag: &Flag<Self::Unit>) -> (r: Self::Unit)
        ensures
            r.bits() == flag.field_of(self.cell().bits()),
    {
        let cell = self.read();
        cell.bit_and(flag.mask).shr(flag.mask.trailing_zeros())
    }

    /// Replaces the field by `value`: clears the mask's bits, then ors in
    /// `value << shift`. `value` is not narrowed to the field first.
    fn set_flag(&mut self, value: Self::Unit, flag: &Flag<Self::Unit>)
        ensures
            final(self).cell().bits() == flag.with_field(old(self).cell().bits(), value.bits()),
    {
        self.reset_flag(flag);
        let cell = self.read();
        self.write(cell.bit_or(value.shl(flag.mask.trailing_zeros())));
    }

    /// Turns on the bits of `value` at the field's position, keeping the bits
    /// already on. `value` is not narrowed to the field first.
    fn set_on(&mut self, value: Self::Unit, flag: &Flag<Self::Unit>)
        ensures
            final(self).cell().bits() == flag.with_bits_on(old(self).cell().bits(), value.bits()),
    {
        let cell = self.read();
        self.write(cell.bit_or(value.shl(flag.mask.trailing_zeros())));
    }

    /// Clears every bit of the field: `cell & !mask`.
    fn reset_flag(&mut self, flag: &Flag<Self::Unit>)
        ensures
            final(self).cell().bits() == flag.cleared(old(self).cell().bits()),
    {
        let cell = self.read();
        let r = cell.bit_and(flag.mask.bit_not());
        proof {
            lemma_cell_and_flag(cell, *flag);
            let c = cell.bits();
            let m = flag.mask.bits();
            let o = low_ones(Self::Unit::width());
            assert(c & (!m & o) == c & !m) by (bit_vector)
                requires
                    c & o == c,
            ;
        }
        self.write(r);
    }

    /// Turns off the field's bits that are set in `value`: the field becomes
    /// `!value & get_flag(flag)`, which always fits the field.
    fn set_off(&mut self, value: Self::Unit, flag: &Flag<Self::Unit>)
        ensures
            final(self).cell().bits() == flag.with_bits_off(old(self).cell().bits(), value.bits()),
    {
        let field = self.get_flag(flag);
        let new_value = value.bit_not().bit_and(field);
        proof {
            lemma_cell_and_flag(self.cell(), *flag);
            let c = self.cell().bits();
            let m = flag.mask.bits();
            let s = flag.spec_shift();
            let w = Self::Unit::width();
            let v = value.bits();
            let f = field.bits();
            assert((!v & low_ones(w)) & f == !v & f) by (bit_vector)
                requires
                    c & low_ones(w) == c,
                    f == (if s < w { (c & m) >> s } else { 0 }),
            ;
        }
        self.set_flag(new_value, flag);
    }
}

/// A bare integer is its own backing cell.
impl Bitbite for u8 {
    type Unit = u8;

    open spec fn cell(&self) -> u8 {
        *self
    }

    fn read(&self) -> (r: u8) {
        *self
    }

    fn write(&mut self, value: u8) {
        *self = value;
    }
}

impl Bitbite for u16 {
    type Unit = u16;

    open spec fn cell(&self) -> u16 {
        *self
    }

    fn read(&self) -> (r: u16) {
        *self
    }

    fn write(&mut self, value: u16) {
        *self = value;
    }
}

impl Bitbite for u32 {
    type Unit = u32;

    open spec fn cell(&self) -> u32 {
        *self
    }

    fn read(&self) -> (r: u32) {
        *self
    }

    fn write(&mut self, value: u32) {
        *self = value;
    }
}

impl Bitbite for u64 {
    type Unit = u64;

    open spec fn cell(&self) -> u64 {
        *self
    }

    fn read(&self) -> (r: u64) {
        *self
    }

    fn write(&mut self, value: u64) {
        *self = value;
    }
}

} // verus!
