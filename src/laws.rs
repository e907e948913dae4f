//! Laws relating the flag operations, stated over the models that the
//! operations' contracts use.
use vstd::prelude::*;
use crate::bitbite::lemma_cell_and_flag;
use crate::flag::Flag;
use crate::unsigned::{Unsigned, low_ones};

verus! {

/// A value that fits under the shifted mask survives being placed over a
/// cleared field and read back.
proof fn lemma_bits_round_trip(c: u64, m: u64, v: u64, s: u32, w: u32)
    by (bit_vector)
    requires
        w == 8 || w == 16 || w == 32 || w == 64,
        s < w,
        m & low_ones(w) == m,
        (m >> s) << s == m,
        v & !((m & m) >> s) == 0,
    ensures
        (((c & !m) | ((v << s) & low_ones(w))) & m) >> s == v,
        ((c & !m) | ((v << s) & low_ones(w))) & !m == c & !m,
        (c | ((v << s) & low_ones(w))) & !m == c & !m,
{
}

/// What is read from a field, with any bits turned off, fits the field.
proof fn lemma_bits_field_fits(c: u64, m: u64, t: u64, s: u32)
    by (bit_vector)
    ensures
        (!t & ((c & m) >> s)) & !((m & m) >> s) == 0,
        !t & ((c & m) >> s) == ((c & m) >> s) & !t,
{
}

/// Writing a value that fits a non-empty field and reading the field back
/// gives that value.
pub proof fn lemma_round_trip<T: Unsigned>(flag: Flag<T>, cell: T, value: T)
    requires
        flag.mask.bits() != 0,
        flag.fits(value.bits()),
    ensures
        flag.field_of(flag.with_field(cell.bits(), value.bits())) == value.bits(),
{
    lemma_cell_and_flag(cell, flag);
    lemma_bits_round_trip(
        cell.bits(),
        flag.mask.bits(),
        value.bits(),
        flag.spec_shift(),
        T::width(),
    );
}

/// Clearing a field twice leaves the cell as clearing it once.
pub proof fn lemma_reset_idempotent<T: Unsigned>(flag: Flag<T>, cell: T)
    ensures
        flag.cleared(flag.cleared(cell.bits())) == flag.cleared(cell.bits()),
{
    let c = cell.bits();
    let m = flag.mask.bits();
    assert((c & !m) & !m == c & !m) by (bit_vector);
}

/// The bits of the cell outside the mask are kept by clearing the field and
/// by turning bits of it off, and by writing or turning on a value that fits
/// the field. (Reading a field takes the cell by shared reference.)
pub proof fn lemma_outside_bits_kept<T: Unsigned>(flag: Flag<T>, cell: T, value: T)
    ensures
        flag.cleared(cell.bits()) & !flag.mask.bits() == cell.bits() & !flag.mask.bits(),
        flag.with_bits_off(cell.bits(), value.bits()) & !flag.mask.bits() == cell.bits()
            & !flag.mask.bits(),
        flag.fits(value.bits()) ==> flag.with_field(cell.bits(), value.bits())
            & !flag.mask.bits() == cell.bits() & !flag.mask.bits(),
        flag.fits(value.bits()) ==> flag.with_bits_on(cell.bits(), value.bits())
            & !flag.mask.bits() == cell.bits() & !flag.mask.bits(),
{
    lemma_cell_and_flag(cell, flag);
    let c = cell.bits();
    let m = flag.mask.bits();
    let v = value.bits();
    let s = flag.spec_shift();
    let w = T::width();
    assert((c & !m) & !m == c & !m) by (bit_vector);
    if s < w {
        lemma_bits_field_fits(c, m, v, s);
        lemma_bits_round_trip(c, m, !v & ((c & m) >> s), s, w);
        if flag.fits(v) {
            lemma_bits_round_trip(c, m, v, s, w);
        }
    } else {
        assert(m == 0);
        assert((c & !0u64) | 0u64 == c & !0u64 && c | 0u64 == c & !0u64) by (bit_vector);
    }
}

/// Turning off the bits `t` of a field leaves the field's value with exactly
/// those bits cleared.
pub proof fn lemma_set_off_clears<T: Unsigned>(flag: Flag<T>, cell: T, t: T)
    ensures
        flag.field_of(flag.with_bits_off(cell.bits(), t.bits())) == flag.field_of(cell.bits())
            & !t.bits(),
{
    lemma_cell_and_flag(cell, flag);
    let c = cell.bits();
    let m = flag.mask.bits();
    let s = flag.spec_shift();
    let w = T::width();
    if s < w {
        lemma_bits_field_fits(c, m, t.bits(), s);
        lemma_bits_round_trip(c, m, !t.bits() & ((c & m) >> s), s, w);
    } else {
        assert(0u64 & !t.bits() == 0) by (bit_vector);
    }
}

} // verus!
