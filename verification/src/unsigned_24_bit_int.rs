//! An unsigned integer of 24 bits, with arithmetic modulo `2^24`.

use crate::packed::{
    join_three_bytes, le24, le24_bytes, lemma_le24_of_bytes, lemma_le24_of_int,
    lemma_wrap_congruent, lemma_wrap_in_range, lemma_wrap_periodic, low_three_bytes, span24,
    wrap_unsigned,
};
use vstd::prelude::*;

verus! {

/// An unsigned 24-bit integer, stored as three bytes, least significant first.
///
/// Arithmetic is modular: every operation yields the exact result reduced
/// modulo `2^24`. Nothing saturates and nothing fails but division by zero,
/// which the contracts of `/` and `%` rule out.
///
/// `==` and hashing go by the integer. `<` and the other comparisons go by
/// the stored bytes, first byte first, which is not the order of the
/// integers: compare what `to_u32` returns for that.
#[allow(non_camel_case_types)]
#[derive(Clone, Copy, Debug, PartialEq, Eq, PartialOrd, Ord, Hash)]
pub struct u24([u8; 3]);

impl View for u24 {
    type V = int;

    /// The integer that the value stands for, in `0 ..= MAX`.
    open spec fn view(&self) -> int {
        le24(self.bytes())
    }
}

impl u24 {
    /// The smallest value.
    pub const MIN: u32 = 0;

    /// The largest value, `2^24 - 1`.
    pub const MAX: u32 = 0xFF_FFFF;

    /// The three stored bytes, least significant first.
    pub closed spec fn bytes(self) -> Seq<u8> {
        self.0@
    }

    /// The value that stands for `n` reduced modulo `2^24`.
    pub closed spec fn of_int(n: int) -> Self {
        let m = n % span24();
        u24([(m % 256) as u8, (m / 256 % 256) as u8, (m / 65536) as u8])
    }

    /// Every value holds exactly three bytes and lies in `0 ..= MAX`.
    pub proof fn lemma_range(self)
        ensures
            self.bytes().len() == 3,
            0 <= self@ <= Self::MAX,
            self.bytes() == le24_bytes(self@),
    {
        lemma_le24_of_bytes(self.bytes());
    }

    /// `of_int` reduces modulo `2^24` and stores the residue's three bytes.
    pub proof fn lemma_of_int(n: int)
        ensures
            Self::of_int(n)@ == wrap_unsigned(n),
            Self::of_int(n).bytes() == le24_bytes(n),
    {
        assert(Self::of_int(n).bytes() =~= le24_bytes(n));
        lemma_le24_of_int(n);
    }

    /// A number within the range survives the way into three bytes and back.
    pub proof fn lemma_round_trip(x: u32)
        requires
            x <= Self::MAX,
        ensures
            Self::of_int(x as int)@ == x,
    {
        Self::lemma_of_int(x as int);
        lemma_wrap_in_range(x as int);
    }

    /// Three bytes survive the way into a number and back.
    pub proof fn lemma_round_trip_back(self)
        ensures
            Self::of_int(self@) == self,
    {
        self.lemma_range();
        Self::lemma_of_int(self@);
        lemma_wrap_in_range(self@);
        self.lemma_view_injective(Self::of_int(self@));
    }

    /// Two values that stand for the same integer are the same value.
    pub proof fn lemma_view_injective(self, other: Self)
        requires
            self@ == other@,
        ensures
            self == other,
    {
        self.lemma_range();
        other.lemma_range();
        assert(self.0 =~= other.0);
    }

    /// Keeps the low 24 bits of `value` and drops the rest.
    pub fn new(value: u32) -> (r: Self)
        ensures
            r == Self::of_int(value as int),
            r@ == wrap_unsigned(value as int),
    {
        Self::from_u32(value)
    }

    /// Widens back to a `u32`, filling the top byte with zero.
    pub fn to_u32(self) -> (r: u32)
        ensures
            r as int == self@,
    {
        join_three_bytes(&self.0)
    }

    /// Keeps the low 24 bits of `val` and drops the rest.
    pub fn from_u32(val: u32) -> (r: Self)
        ensures
            r == Self::of_int(val as int),
            r@ == wrap_unsigned(val as int),
    {
        let r = Self(low_three_bytes(val));
        proof {
            assert(r.0 =~= Self::of_int(val as int).0);
            Self::lemma_of_int(val as int);
        }
        r
    }

    /// The three stored bytes, least significant first.
    pub fn to_le_bytes(self) -> (r: [u8; 3])
        ensures
            r@ == self.bytes(),
    {
        self.0
    }

    /// Overwrites `self` with the low 24 bits of `val`.
    pub fn load_from_u32(&mut self, val: u32)
        ensures
            *final(self) == Self::of_int(val as int),
            final(self)@ == wrap_unsigned(val as int),
    {
        *self = Self::from_u32(val);
    }
}

impl core::ops::Add for u24 {
    type Output = Self;

    /// The sum modulo `2^24`.
    fn add(self, rhs: Self) -> (r: Self)
        ensures
            r@ == wrap_unsigned(self@ + rhs@),
    {
        proof {
            self.lemma_range();
            rhs.lemma_range();
            Self::lemma_of_int(self@ + rhs@);
        }
        Self::from_u32(self.to_u32() + rhs.to_u32())
    }
}

impl vstd::std_specs::ops::AddSpecImpl for u24 {
    open spec fn obeys_add_spec() -> bool {
        true
    }

    open spec fn add_req(self, rhs: Self) -> bool {
        true
    }

    open spec fn add_spec(self, rhs: Self) -> Self {
        Self::of_int(self@ + rhs@)
    }
}

impl core::ops::AddAssign for u24 {
    /// As `+`, with the result stored in `self`.
    fn add_assign(&mut self, rhs: Self)
        ensures
            *final(self) == Self::of_int(old(self)@ + rhs@),
            final(self)@ == wrap_unsigned(old(self)@ + rhs@),
    {
        *self = *self + rhs;
    }
}

impl core::ops::Sub for u24 {
    type Output = Self;

    /// The difference modulo `2^24`: below zero it wraps round to the top.
    fn sub(self, rhs: Self) -> (r: Self)
        ensures
            r@ == wrap_unsigned(self@ - rhs@),
    {
        proof {
            self.lemma_range();
            rhs.lemma_range();
            Self::lemma_of_int(self@ - rhs@);
        }
        let r = Self::from_u32(self.to_u32() + 0x100_0000 - rhs.to_u32());
        proof {
            lemma_wrap_periodic(self@ - rhs@, 1);
            r.lemma_view_injective(Self::of_int(self@ - rhs@));
        }
        r
    }
}

impl vstd::std_specs::ops::SubSpecImpl for u24 {
    open spec fn obeys_sub_spec() -> bool {
        true
    }

    open spec fn sub_req(self, rhs: Self) -> bool {
        true
    }

    open spec fn sub_spec(self, rhs: Self) -> Self {
        Self::of_int(self@ - rhs@)
    }
}

impl core::ops::SubAssign for u24 {
    /// As `-`, with the result stored in `self`.
    fn sub_assign(&mut self, rhs: Self)
        ensures
            *final(self) == Self::of_int(old(self)@ - rhs@),
            final(self)@ == wrap_unsigned(old(self)@ - rhs@),
    {
        *self = *self - rhs;
    }
}

impl core::ops::Mul for u24 {
    type Output = Self;

    /// The product modulo `2^24`.
    fn mul(self, rhs: Self) -> (r: Self)
        ensures
            r@ == wrap_unsigned(self@ * rhs@),
    {
        proof {
            self.lemma_range();
            rhs.lemma_range();
            Self::lemma_of_int(self@ * rhs@);
        }
        let a: u64 = self.to_u32() as u64;
        let b: u64 = rhs.to_u32() as u64;
        assert(0 <= a * b <= 0xFF_FFFF * 0xFF_FFFF) by (nonlinear_arith)
            requires
                0 <= a <= 0xFF_FFFF,
                0 <= b <= 0xFF_FFFF,
        ;
        let low: u32 = ((a * b) % 0x100_0000) as u32;
        let r = Self::from_u32(low);
        proof {
            lemma_wrap_congruent(low as int, self@ * rhs@);
            r.lemma_view_injective(Self::of_int(self@ * rhs@));
        }
        r
    }
}

impl vstd::std_specs::ops::MulSpecImpl for u24 {
    open spec fn obeys_mul_spec() -> bool {
        true
    }

    open spec fn mul_req(self, rhs: Self) -> bool {
        true
    }

    open spec fn mul_spec(self, rhs: Self) -> Self {
        Self::of_int(self@ * rhs@)
    }
}

impl core::ops::MulAssign for u24 {
    /// As `*`, with the result stored in `self`.
    fn mul_assign(&mut self, rhs: Self)
        ensures
            *final(self) == Self::of_int(old(self)@ * rhs@),
            final(self)@ == wrap_unsigned(old(self)@ * rhs@),
    {
        *self = *self * rhs;
    }
}

impl core::ops::Div for u24 {
    type Output = Self;

    /// The quotient, rounded down; it never wraps. The divisor must not be
    /// zero.
    fn div(self, rhs: Self) -> (r: Self)
        ensures
            r@ == self@ / rhs@,
    {
        proof {
            self.lemma_range();
            rhs.lemma_range();
            Self::lemma_of_int(self@ / rhs@);
            lemma_wrap_in_range(self@ / rhs@);
        }
        Self::from_u32(self.to_u32() / rhs.to_u32())
    }
}

impl vstd::std_specs::ops::DivSpecImpl for u24 {
    open spec fn obeys_div_spec() -> bool {
        true
    }

    open spec fn div_req(self, rhs: Self) -> bool {
        rhs@ != 0
    }

    open spec fn div_spec(self, rhs: Self) -> Self {
        Self::of_int(self@ / rhs@)
    }
}

impl core::ops::DivAssign for u24 {
    /// As `/`, with the result stored in `self`.
    fn div_assign(&mut self, rhs: Self)
        requires
            rhs@ != 0,
        ensures
            *final(self) == Self::of_int(old(self)@ / rhs@),
            final(self)@ == old(self)@ / rhs@,
    {
        *self = *self / rhs;
    }
}

impl core::ops::Rem for u24 {
    type Output = Self;

    /// The remainder of the division; it never wraps. The divisor must not
    /// be zero.
    fn rem(self, rhs: Self) -> (r: Self)
        ensures
            r@ == self@ % rhs@,
    {
        proof {
            self.lemma_range();
            rhs.lemma_range();
            Self::lemma_of_int(self@ % rhs@);
            lemma_wrap_in_range(self@ % rhs@);
        }
        Self::from_u32(self.to_u32() % rhs.to_u32())
    }
}

impl vstd::std_specs::ops::RemSpecImpl for u24 {
    open spec fn obeys_rem_spec() -> bool {
        true
    }

    open spec fn rem_req(self, rhs: Self) -> bool {
        rhs@ != 0
    }

    open spec fn rem_spec(self, rhs: Self) -> Self {
        Self::of_int(self@ % rhs@)
    }
}

impl core::ops::RemAssign for u24 {
    /// As `%`, with the result stored in `self`.
    fn rem_assign(&mut self, rhs: Self)
        requires
            rhs@ != 0,
        ensures
            *final(self) == Self::of_int(old(self)@ % rhs@),
            final(self)@ == old(self)@ % rhs@,
    {
        *self = *self % rhs;
    }
}

} // verus!
