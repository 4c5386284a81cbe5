//! A signed integer of 24 bits in two's complement, with arithmetic modulo
//! `2^24`.

use crate::packed::{
    div_toward_zero, join_three_bytes, le24, le24_bytes, lemma_div_rem_toward_zero,
    lemma_le24_of_bytes, lemma_le24_of_int, lemma_wrap_congruent, lemma_wrap_in_range,
    lemma_wrap_periodic, low_three_bytes, magnitude, rem_toward_zero, span24, wrap_signed,
};
use vstd::prelude::*;

verus! {

/// A signed 24-bit integer, stored as three bytes of two's complement, least
/// significant first.
///
/// Arithmetic is modular: every operation yields the exact result folded into
/// `-2^23 .. 2^23`. Nothing saturates and nothing fails but division by zero,
/// which the contracts of `/` and `%` rule out.
///
/// `==` and hashing go by the integer. `<` and the other comparisons go by
/// the stored bytes, first byte first, which is not the order of the
/// integers: compare what `to_i32` returns for that.
#[allow(non_camel_case_types)]
#[derive(Clone, Copy, Debug, PartialEq, Eq, PartialOrd, Ord, Hash)]
pub struct i24([u8; 3]);

impl View for i24 {
    type V = int;

    /// The integer that the value stands for, in `MIN .. MAX`.
    open spec fn view(&self) -> int {
        wrap_signed(le24(self.bytes()))
    }
}

impl i24 {
    /// The smallest value, `-2^23`.
    pub const MIN: i32 = -0x80_0000;

    /// The bound of the range from above, `2^23`. Three bytes stop one short
    /// of it: `new(MAX)` wraps round to `MIN`.
    pub const MAX: i32 = 0x80_0000;

    /// The three stored bytes, least significant first.
    pub closed spec fn bytes(self) -> Seq<u8> {
        self.0@
    }

    /// The value that stands for `n` folded into `MIN .. MAX`.
    pub closed spec fn of_int(n: int) -> Self {
        let m = n % span24();
        i24([(m % 256) as u8, (m / 256 % 256) as u8, (m / 65536) as u8])
    }

    /// Every value holds exactly three bytes and lies in `MIN .. MAX`.
    pub proof fn lemma_range(self)
        ensures
            self.bytes().len() == 3,
            Self::MIN <= self@ < Self::MAX,
            self.bytes() == le24_bytes(self@),
    {
        lemma_le24_of_bytes(self.bytes());
        if le24(self.bytes()) >= 0x80_0000 {
            lemma_wrap_periodic(le24(self.bytes()), -1);
        }
    }

    /// `of_int` folds into the range and stores the three bytes of the
    /// residue modulo `2^24`.
    pub proof fn lemma_of_int(n: int)
        ensures
            Self::of_int(n)@ == wrap_signed(n),
            Self::of_int(n).bytes() == le24_bytes(n),
    {
        assert(Self::of_int(n).bytes() =~= le24_bytes(n));
        lemma_le24_of_int(n);
        lemma_wrap_congruent(n % span24(), n);
    }

    /// A number within the range survives the way into three bytes and back.
    pub proof fn lemma_round_trip(x: i32)
        requires
            Self::MIN <= x < Self::MAX,
        ensures
            Self::of_int(x as int)@ == x,
    {
        Self::lemma_of_int(x as int);
        lemma_wrap_in_range(x as int);
    }

    /// Three bytes survive the way into a number and back.
    pub proof fn lemma_round_trip_back(self)
        ensures
            Self::of_int(self@) == self,
    {
        self.lemma_range();
        Self::lemma_of_int(self@);
        lemma_wrap_in_range(self@);
        self.lemma_view_injective(Self::of_int(self@));
    }

    /// Two values that stand for the same integer are the same value.
    pub proof fn lemma_view_injective(self, other: Self)
        requires
            self@ == other@,
        ensures
            self == other,
    {
        self.lemma_range();
        other.lemma_range();
        assert(self.0 =~= other.0);
    }

    /// Keeps the low 24 bits of `value` as two's complement and drops the
    /// rest.
    pub fn new(value: i32) -> (r: Self)
        ensures
            r == Self::of_int(value as int),
            r@ == wrap_signed(value as int),
    {
        Self::from_i32(value)
    }

    /// Widens back to an `i32`, copying the sign bit into the top byte.
    pub fn to_i32(self) -> (r: i32)
        ensures
            r as int == self@,
    {
        let u: u32 = join_three_bytes(&self.0);
        if u >= 0x80_0000 {
            (u as i32) - 0x100_0000
        } else {
            u as i32
        }
    }

    /// Keeps the low 24 bits of `val` as two's complement and drops the rest.
    pub fn from_i32(val: i32) -> (r: Self)
        ensures
            r == Self::of_int(val as int),
            r@ == wrap_signed(val as int),
    {
        Self::from_i64(val as i64)
    }

    /// Keeps the low 24 bits of a wide intermediate result.
    fn from_i64(val: i64) -> (r: Self)
        requires
            -0x4000_0000_0000 <= val <= 0x4000_0000_0000,
        ensures
            r == Self::of_int(val as int),
            r@ == wrap_signed(val as int),
    {
        let lifted: u64 = (val + 0x4000_0000_0000) as u64;
        let low: u32 = (lifted % 0x100_0000) as u32;
        let r = Self(low_three_bytes(low));
        proof {
            lemma_wrap_periodic(val as int, 0x40_0000);
            lemma_wrap_congruent(low as int, lifted as int);
            assert(r.0 =~= Self::of_int(val as int).0);
            Self::lemma_of_int(val as int);
        }
        r
    }

    /// The distance from zero of a widened value.
    fn abs_of(n: i32) -> (r: u32)
        requires
            Self::MIN <= n < Self::MAX,
        ensures
            r as int == magnitude(n as int),
    {
        if n < 0 {
            (-n) as u32
        } else {
            n as u32
        }
    }

    /// The three stored bytes, least significant first.
    pub fn to_le_bytes(self) -> (r: [u8; 3])
        ensures
            r@ == self.bytes(),
    {
        self.0
    }

    /// Overwrites `self` with the low 24 bits of `val`.
    pub fn load_from_i32(&mut self, val: i32)
        ensures
            *final(self) == Self::of_int(val as int),
            final(self)@ == wrap_signed(val as int),
    {
        *self = Self::from_i32(val);
    }
}

impl core::ops::Add for i24 {
    type Output = Self;

    /// The sum, folded into `MIN .. MAX`.
    fn add(self, rhs: Self) -> (r: Self)
        ensures
            r@ == wrap_signed(self@ + rhs@),
    {
        proof {
            self.lemma_range();
            rhs.lemma_range();
        }
        Self::from_i32(self.to_i32() + rhs.to_i32())
    }
}

impl vstd::std_specs::ops::AddSpecImpl for i24 {
    open spec fn obeys_add_spec() -> bool {
        true
    }

    open spec fn add_req(self, rhs: Self) -> bool {
        true
    }

    open spec fn add_spec(self, rhs: Self) -> Self {
        Self::of_int(self@ + rhs@)
    }
}

impl core::ops::AddAssign for i24 {
    /// As `+`, with the result stored in `self`.
    fn add_assign(&mut self, rhs: Self)
        ensures
            *final(self) == Self::of_int(old(self)@ + rhs@),
            final(self)@ == wrap_signed(old(self)@ + rhs@),
    {
        proof {
            Self::lemma_of_int(old(self)@ + rhs@);
        }
        *self = *self + rhs;
    }
}

impl core::ops::Sub for i24 {
    type Output = Self;

    /// The difference, folded into `MIN .. MAX`.
    fn sub(self, rhs: Self) -> (r: Self)
        ensures
            r@ == wrap_signed(self@ - rhs@),
    {
        proof {
            self.lemma_range();
            rhs.lemma_range();
        }
        Self::from_i32(self.to_i32() - rhs.to_i32())
    }
}

impl vstd::std_specs::ops::SubSpecImpl for i24 {
    open spec fn obeys_sub_spec() -> bool {
        true
    }

    open spec fn sub_req(self, rhs: Self) -> bool {
        true
    }

    open spec fn sub_spec(self, rhs: Self) -> Self {
        Self::of_int(self@ - rhs@)
    }
}

impl core::ops::SubAssign for i24 {
    /// As `-`, with the result stored in `self`.
    fn sub_assign(&mut self, rhs: Self)
        ensures
            *final(self) == Self::of_int(old(self)@ - rhs@),
            final(self)@ == wrap_signed(old(self)@ - rhs@),
    {
        proof {
            Self::lemma_of_int(old(self)@ - rhs@);
        }
        *self = *self - rhs;
    }
}

impl core::ops::Mul for i24 {
    type Output = Self;

    /// The product, folded into `MIN .. MAX`.
    fn mul(self, rhs: Self) -> (r: Self)
        ensures
            r@ == wrap_signed(self@ * rhs@),
    {
        proof {
            self.lemma_range();
            rhs.lemma_range();
        }
        let a: i64 = self.to_i32() as i64;
        let b: i64 = rhs.to_i32() as i64;
        assert(-0x4000_0000_0000 <= a * b <= 0x4000_0000_0000) by (nonlinear_arith)
            requires
                -0x80_0000 <= a <= 0x80_0000,
                -0x80_0000 <= b <= 0x80_0000,
        ;
        Self::from_i64(a * b)
    }
}

impl vstd::std_specs::ops::MulSpecImpl for i24 {
    open spec fn obeys_mul_spec() -> bool {
        true
    }

    open spec fn mul_req(self, rhs: Self) -> bool {
        true
    }

    open spec fn mul_spec(self, rhs: Self) -> Self {
        Self::of_int(self@ * rhs@)
    }
}

impl core::ops::MulAssign for i24 {
    /// As `*`, with the result stored in `self`.
    fn mul_assign(&mut self, rhs: Self)
        ensures
            *final(self) == Self::of_int(old(self)@ * rhs@),
            final(self)@ == wrap_signed(old(self)@ * rhs@),
    {
        proof {
            Self::lemma_of_int(old(self)@ * rhs@);
        }
        *self = *self * rhs;
    }
}

impl core::ops::Div for i24 {
    type Output = Self;

    /// The quotient, rounded toward zero and folded into `MIN .. MAX`: only
    /// `MIN / -1` wraps, back to `MIN`. The divisor must not be zero.
    fn div(self, rhs: Self) -> (r: Self)
        ensures
            r@ == wrap_signed(div_toward_zero(self@, rhs@)),
    {
        proof {
            self.lemma_range();
            rhs.lemma_range();
        }
        let a: i32 = self.to_i32();
        let b: i32 = rhs.to_i32();
        let q: u32 = Self::abs_of(a) / Self::abs_of(b);
        proof {
            lemma_div_rem_toward_zero(a as int, b as int);
        }
        if (a < 0) == (b < 0) {
            Self::from_i64(q as i64)
        } else {
            Self::from_i64(-(q as i64))
        }
    }
}

impl vstd::std_specs::ops::DivSpecImpl for i24 {
    open spec fn obeys_div_spec() -> bool {
        true
    }

    open spec fn div_req(self, rhs: Self) -> bool {
        rhs@ != 0
    }

    open spec fn div_spec(self, rhs: Self) -> Self {
        Self::of_int(div_toward_zero(self@, rhs@))
    }
}

impl core::ops::DivAssign for i24 {
    /// As `/`, with the result stored in `self`.
    fn div_assign(&mut self, rhs: Self)
        requires
            rhs@ != 0,
        ensures
            *final(self) == Self::of_int(div_toward_zero(old(self)@, rhs@)),
            final(self)@ == wrap_signed(div_toward_zero(old(self)@, rhs@)),
    {
        proof {
            Self::lemma_of_int(div_toward_zero(old(self)@, rhs@));
        }
        *self = *self / rhs;
    }
}

impl core::ops::Rem for i24 {
    type Output = Self;

    /// The remainder of the division toward zero: it has the sign of `self`.
    /// The divisor must not be zero.
    fn rem(self, rhs: Self) -> (r: Self)
        ensures
            r@ == rem_toward_zero(self@, rhs@),
    {
        proof {
            self.lemma_range();
            rhs.lemma_range();
        }
        let a: i32 = self.to_i32();
        let b: i32 = rhs.to_i32();
        let m: u32 = Self::abs_of(a) % Self::abs_of(b);
        proof {
            lemma_div_rem_toward_zero(a as int, b as int);
            lemma_wrap_in_range(rem_toward_zero(a as int, b as int));
        }
        if a < 0 {
            Self::from_i64(-(m as i64))
        } else {
            Self::from_i64(m as i64)
        }
    }
}

impl vstd::std_specs::ops::RemSpecImpl for i24 {
    open spec fn obeys_rem_spec() -> bool {
        true
    }

    open spec fn rem_req(self, rhs: Self) -> bool {
        rhs@ != 0
    }

    open spec fn rem_spec(self, rhs: Self) -> Self {
        Self::of_int(rem_toward_zero(self@, rhs@))
    }
}

impl core::ops::RemAssign for i24 {
    /// As `%`, with the result stored in `self`.
    fn rem_assign(&mut self, rhs: Self)
        requires
            rhs@ != 0,
        ensures
            *final(self) == Self::of_int(rem_toward_zero(old(self)@, rhs@)),
            final(self)@ == rem_toward_zero(old(self)@, rhs@),
    {
        *self = *self % rhs;
        proof {
            Self::lemma_of_int(rem_toward_zero(old(self)@, rhs@));
        }
    }
}

} // verus!
