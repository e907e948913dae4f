//! The unsigned integer widths that can back a cell, with their bit
//! operations stated over a common 64-bit model.
use vstd::prelude::*;
use vstd::std_specs::bits::*;

verus! {

/// The all-ones pattern of the low `w` bits, for the native widths `w`.
pub open spec fn low_ones(w: u32) -> u64 {
    if w == 8 {
        0xff
    } else if w == 16 {
        0xffff
    } else if w == 32 {
        0xffff_ffff
    } else {
        0xffff_ffff_ffff_ffff
    }
}

/// An unsigned integer type of a fixed width. Every value is modelled by its
/// bit pattern zero-extended to 64 bits.
pub trait Unsigned: Copy + Sized {
    /// The number of bits of the type.
    spec fn width() -> u32;

    /// The bit pattern of the value, zero-extended to 64 bits.
    spec fn bits(self) -> u64;

    /// The number of trailing zero bits (the width for zero).
    spec fn spec_trailing_zeros(self) -> u32;

    /// The width is one of the native widths, every value fits in it, and
    /// the model determines the value.
    proof fn lemma_model(a: Self, b: Self)
        ensures
            Self::width() == 8 || Self::width() == 16 || Self::width() == 32 || Self::width()
                == 64,
            a.bits() & low_ones(Self::width()) == a.bits(),
            a.bits() == b.bits() ==> a == b,
    ;

    /// Trailing zeros count the bits below the lowest set bit.
    proof fn lemma_trailing_zeros(a: Self)
        ensures
            a.spec_trailing_zeros() <= Self::width(),
            a.bits() == 0 <==> a.spec_trailing_zeros() == Self::width(),
            a.spec_trailing_zeros() < Self::width() ==> (a.bits() >> a.spec_trailing_zeros())
                & 1 == 1,
            a.spec_trailing_zeros() < Self::width() ==> (a.bits() >> a.spec_trailing_zeros())
                << a.spec_trailing_zeros() == a.bits(),
    ;

    /// Bitwise and.
    fn bit_and(self, other: Self) -> (r: Self)
        ensures
            r.bits() == self.bits() & other.bits(),
    ;

    /// Bitwise or.
    fn bit_or(self, other: Self) -> (r: Self)
        ensures
            r.bits() == self.bits() | other.bits(),
    ;

    /// Bitwise complement within the width.
    fn bit_not(self) -> (r: Self)
        ensures
            r.bits() == !self.bits() & low_ones(Self::width()),
    ;

    /// Left shift within the width; a shift by the width or more gives zero.
    fn shl(self, s: u32) -> (r: Self)
        ensures
            s < Self::width() ==> r.bits() == (self.bits() << s) & low_ones(Self::width()),
            s >= Self::width() ==> r.bits() == 0,
    ;

    /// Right shift; a shift by the width or more gives zero.
    fn shr(self, s: u32) -> (r: Self)
        ensures
            s < Self::width() ==> r.bits() == self.bits() >> s,
            s >= Self::width() ==> r.bits() == 0,
    ;

    /// The number of trailing zero bits.
    fn trailing_zeros(self) -> (r: u32)
        ensures
            r == self.spec_trailing_zeros(),
    ;
}

impl Unsigned for u8 {
    open spec fn width() -> u32 {
        8
    }

    open spec fn bits(self) -> u64 {
        self as u64
    }

    open spec fn spec_trailing_zeros(self) -> u32 {
        u8_trailing_zeros(self)
    }

    proof fn lemma_model(a: u8, b: u8) {
        assert((a as u64) & 0xff == a as u64) by (bit_vector);
    }

    proof fn lemma_trailing_zeros(a: u8) {
        axiom_u8_trailing_zeros(a);
        let t = u8_trailing_zeros(a);
        let k = (8 - t) as u8;
        assert(a << k == 0);
        assert(t < 8 ==> ((a as u64) >> t) & 1 == 1 && ((a as u64) >> t) << t == a as u64)
            by (bit_vector)
            requires
                t <= 8,
                k == 8 - t,
                a << k == 0,
                t < 8 ==> (a >> t as u8) & 1 == 1,
        ;
    }

    fn bit_and(self, other: u8) -> (r: u8) {
        self & other
    }

    fn bit_or(self, other: u8) -> (r: u8) {
        self | other
    }

    fn bit_not(self) -> (r: u8) {
        let r = !self;
        proof {
            let a = self;
            assert((!a) as u64 == !(a as u64) & 0xff) by (bit_vector);
        }
        r
    }

    fn shl(self, s: u32) -> (r: u8) {
        if s < 8 {
            let r = self << s;
            proof {
                let a = self;
                assert(s < 8 ==> (a << s) as u64 == ((a as u64) << s) & 0xff) by (bit_vector);
            }
            r
        } else {
            0
        }
    }

    fn shr(self, s: u32) -> (r: u8) {
        if s < 8 {
            let r = self >> s;
            proof {
                let a = self;
                assert(s < 8 ==> (a >> s) as u64 == (a as u64) >> s) by (bit_vector);
            }
            r
        } else {
            0
        }
    }

    fn trailing_zeros(self) -> (r: u32) {
        u8::trailing_zeros(self)
    }
}

impl Unsigned for u16 {
    open spec fn width() -> u32 {
        16
    }

    open spec fn bits(self) -> u64 {
        self as u64
    }

    open spec fn spec_trailing_zeros(self) -> u32 {
        u16_trailing_zeros(self)
    }

    proof fn lemma_model(a: u16, b: u16) {
        assert((a as u64) & 0xffff == a as u64) by (bit_vector);
    }

    proof fn lemma_trailing_zeros(a: u16) {
        axiom_u16_trailing_zeros(a);
        let t = u16_trailing_zeros(a);
        let k = (16 - t) as u16;
        assert(a << k == 0);
        assert(t < 16 ==> ((a as u64) >> t) & 1 == 1 && ((a as u64) >> t) << t == a as u64)
            by (bit_vector)
            requires
                t <= 16,
                k == 16 - t,
                a << k == 0,
                t < 16 ==> (a >> t as u16) & 1 == 1,
        ;
    }

    fn bit_and(self, other: u16) -> (r: u16) {
        self & other
    }

    fn bit_or(self, other: u16) -> (r: u16) {
        self | other
    }

    fn bit_not(self) -> (r: u16) {
        let r = !self;
        proof {
            let a = self;
            assert((!a) as u64 == !(a as u64) & 0xffff) by (bit_vector);
        }
        r
    }

    fn shl(self, s: u32) -> (r: u16) {
        if s < 16 {
            let r = self << s;
            proof {
                let a = self;
                assert(s < 16 ==> (a << s) as u64 == ((a as u64) << s) & 0xffff) by (bit_vector);
            }
            r
        } else {
            0
        }
    }

    fn shr(self, s: u32) -> (r: u16) {
        if s < 16 {
            let r = self >> s;
            proof {
                let a = self;
                assert(s < 16 ==> (a >> s) as u64 == (a as u64) >> s) by (bit_vector);
            }
            r
        } else {
            0
        }
    }

    fn trailing_zeros(self) -> (r: u32) {
        u16::trailing_zeros(self)
    }
}

impl Unsigned for u32 {
    open spec fn width() -> u32 {
        32
    }

    open spec fn bits(self) -> u64 {
        self as u64
    }

    open spec fn spec_trailing_zeros(self) -> u32 {
        u32_trailing_zeros(self)
    }

    proof fn lemma_model(a: u32, b: u32) {
        assert((a as u64) & 0xffff_ffff == a as u64) by (bit_vector);
    }

    proof fn lemma_trailing_zeros(a: u32) {
        axiom_u32_trailing_zeros(a);
        let t = u32_trailing_zeros(a);
        let k = (32 - t) as u32;
        assert(a << k == 0);
        assert(t < 32 ==> ((a as u64) >> t) & 1 == 1 && ((a as u64) >> t) << t == a as u64)
            by (bit_vector)
            requires
                t <= 32,
                k == 32 - t,
                a << k == 0,
                t < 32 ==> (a >> t as u32) & 1 == 1,
        ;
    }

    fn bit_and(self, other: u32) -> (r: u32) {
        self & other
    }

    fn bit_or(self, other: u32) -> (r: u32) {
        self | other
    }

    fn bit_not(self) -> (r: u32) {
        let r = !self;
        proof {
            let a = self;
            assert((!a) as u64 == !(a as u64) & 0xffff_ffff) by (bit_vector);
        }
        r
    }

    fn shl(self, s: u32) -> (r: u32) {
        if s < 32 {
            let r = self << s;
            proof {
                let a = self;
                assert(s < 32 ==> (a << s) as u64 == ((a as u64) << s) & 0xffff_ffff)
                    by (bit_vector);
            }
            r
        } else {
            0
        }
    }

    fn shr(self, s: u32) -> (r: u32) {
        if s < 32 {
            let r = self >> s;
            proof {
                let a = self;
                assert(s < 32 ==> (a >> s) as u64 == (a as u64) >> s) by (bit_vector);
            }
            r
        } else {
            0
        }
    }

    fn trailing_zeros(self) -> (r: u32) {
        u32::trailing_zeros(self)
    }
}

impl Unsigned for u64 {
    open spec fn width() -> u32 {
        64
    }

    open spec fn bits(self) -> u64 {
        self
    }

    open spec fn spec_trailing_zeros(self) -> u32 {
        u64_trailing_zeros(self)
    }

    proof fn lemma_model(a: u64, b: u64) {
        assert(a & 0xffff_ffff_ffff_ffff == a) by (bit_vector);
    }

    proof fn lemma_trailing_zeros(a: u64) {
        axiom_u64_trailing_zeros(a);
        let t = u64_trailing_zeros(a);
        let k = (64 - t) as u64;
        assert(a << k == 0);
        assert(t < 64 ==> (a >> t) & 1 == 1 && (a >> t) << t == a)
            by (bit_vector)
            requires
                t <= 64,
                k == 64 - t,
                a << k == 0,
                t < 64 ==> (a >> t as u64) & 1 == 1,
        ;
    }

    fn bit_and(self, other: u64) -> (r: u64) {
        self & other
    }

    fn bit_or(self, other: u64) -> (r: u64) {
        self | other
    }

    fn bit_not(self) -> (r: u64) {
        let r = !self;
        proof {
            let a = self;
            assert(!a == !a & 0xffff_ffff_ffff_ffff) by (bit_vector);
        }
        r
    }

    fn shl(self, s: u32) -> (r: u64) {
        if s < 64 {
            let r = self << s;
            proof {
                let a = self;
                assert(s < 64 ==> a << s == (a << s) & 0xffff_ffff_ffff_ffff) by (bit_vector);
            }
            r
        } else {
            0
        }
    }

    fn shr(self, s: u32) -> (r: u64) {
        if s < 64 {
            self >> s
        } else {
            0
        }
    }

    fn trailing_zeros(self) -> (r: u32) {
        u64::trailing_zeros(self)
    }
}

} // verus!
