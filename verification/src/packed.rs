//! The arithmetic of a 24-bit window: what three little-endian bytes spell,
//! and how an arbitrary integer is folded into the window.

use vstd::arithmetic::div_mod::{
    lemma_div_is_ordered_by_denominator, lemma_div_pos_is_pos, lemma_fundamental_div_mod,
    lemma_mod_bound, lemma_mod_multiples_vanish,
};
use vstd::prelude::*;

verus! {

/// The number of values that 24 bits can tell apart, `2^24`.
pub open spec fn span24() -> int {
    0x100_0000
}

/// The number that three bytes spell, least significant byte first.
pub open spec fn le24(b: Seq<u8>) -> int
    recommends
        b.len() == 3,
{
    b[0] as int + 256 * (b[1] as int) + 65536 * (b[2] as int)
}

/// The three bytes, least significant first, of `n` reduced modulo `2^24`.
pub open spec fn le24_bytes(n: int) -> Seq<u8> {
    let m = n % span24();
    seq![(m % 256) as u8, (m / 256 % 256) as u8, (m / 65536) as u8]
}

/// `n` folded into `0 .. 2^24`.
pub open spec fn wrap_unsigned(n: int) -> int {
    n % span24()
}

/// `n` folded into `-2^23 .. 2^23`, as two's complement does.
pub open spec fn wrap_signed(n: int) -> int {
    let m = n % span24();
    if m >= 0x80_0000 {
        m - span24()
    } else {
        m
    }
}

/// The distance of `n` from zero.
pub open spec fn magnitude(n: int) -> int {
    if n < 0 {
        -n
    } else {
        n
    }
}

/// The quotient of `a` by `b` rounded toward zero, as machine division rounds.
pub open spec fn div_toward_zero(a: int, b: int) -> int
    recommends
        b != 0,
{
    if (a < 0) == (b < 0) {
        magnitude(a) / magnitude(b)
    } else {
        -(magnitude(a) / magnitude(b))
    }
}

/// The remainder that goes with `div_toward_zero`: it has the sign of `a`.
pub open spec fn rem_toward_zero(a: int, b: int) -> int
    recommends
        b != 0,
{
    if a < 0 {
        -(magnitude(a) % magnitude(b))
    } else {
        magnitude(a) % magnitude(b)
    }
}

/// Quotient and remainder toward zero rebuild the dividend, and the
/// remainder is smaller than the divisor and never of the sign opposite to
/// the dividend's.
pub proof fn lemma_div_rem_toward_zero(a: int, b: int)
    requires
        b != 0,
    ensures
        a == b * div_toward_zero(a, b) + rem_toward_zero(a, b),
        magnitude(rem_toward_zero(a, b)) < magnitude(b),
        a >= 0 ==> rem_toward_zero(a, b) >= 0,
        a <= 0 ==> rem_toward_zero(a, b) <= 0,
        magnitude(div_toward_zero(a, b)) <= magnitude(a),
{
    let x = magnitude(a);
    let d = magnitude(b);
    let q = x / d;
    lemma_fundamental_div_mod(x, d);
    lemma_mod_bound(x, d);
    lemma_div_pos_is_pos(x, d);
    lemma_div_is_ordered_by_denominator(x, 1, d);
    assert(x / 1 == x);
    assert(b * (-q) == -(b * q)) by (nonlinear_arith);
    assert((-d) * q == -(d * q)) by (nonlinear_arith);
}

/// Three bytes spell a number in `0 .. 2^24`, and `le24_bytes` gives them back.
pub proof fn lemma_le24_of_bytes(b: Seq<u8>)
    requires
        b.len() == 3,
    ensures
        0 <= le24(b) < span24(),
        le24_bytes(le24(b)) == b,
{
    assert(le24_bytes(le24(b)) =~= b);
}

/// The bytes of `n` spell `n` modulo `2^24`.
pub proof fn lemma_le24_of_int(n: int)
    ensures
        le24_bytes(n).len() == 3,
        le24(le24_bytes(n)) == wrap_unsigned(n),
{
}

/// Folding depends only on the residue modulo `2^24`.
pub proof fn lemma_wrap_congruent(a: int, b: int)
    requires
        a % span24() == b % span24(),
    ensures
        wrap_unsigned(a) == wrap_unsigned(b),
        wrap_signed(a) == wrap_signed(b),
        le24_bytes(a) == le24_bytes(b),
{
}

/// Folding leaves a number that is already in the window as it is.
pub proof fn lemma_wrap_in_range(n: int)
    ensures
        0 <= n < span24() ==> wrap_unsigned(n) == n,
        -0x80_0000 <= n < 0x80_0000 ==> wrap_signed(n) == n,
        0 <= wrap_unsigned(n) < span24(),
        -0x80_0000 <= wrap_signed(n) < 0x80_0000,
{
    if -0x80_0000 <= n < 0 {
        lemma_mod_multiples_vanish(1, n, span24());
    }
}

/// Adding a multiple of `2^24` changes nothing once folded.
pub proof fn lemma_wrap_periodic(n: int, k: int)
    ensures
        wrap_unsigned(n + k * span24()) == wrap_unsigned(n),
        wrap_signed(n + k * span24()) == wrap_signed(n),
        le24_bytes(n + k * span24()) == le24_bytes(n),
{
    lemma_mod_multiples_vanish(k, n, span24());
    assert(span24() * k + n == n + k * span24());
}

/// The low three bytes of `val`, least significant first.
pub fn low_three_bytes(val: u32) -> (r: [u8; 3])
    ensures
        r@ == le24_bytes(val as int),
{
    let a: u8 = (val & 0xFF) as u8;
    let b: u8 = ((val >> 8) & 0xFF) as u8;
    let c: u8 = ((val >> 16) & 0xFF) as u8;
    assert((val & 0xFF) == (val % 0x100_0000) % 256 && ((val >> 8) & 0xFF) == (val % 0x100_0000)
        / 256 % 256 && ((val >> 16) & 0xFF) == (val % 0x100_0000) / 65536) by (bit_vector);
    let r: [u8; 3] = [a, b, c];
    assert(r@ =~= le24_bytes(val as int));
    r
}

/// The number below `2^24` that three bytes spell, least significant first.
pub fn join_three_bytes(b: &[u8; 3]) -> (r: u32)
    ensures
        r as int == le24(b@),
        r < 0x100_0000,
{
    let x: u8 = b[0];
    let y: u8 = b[1];
    let z: u8 = b[2];
    assert(((x as u32) | ((y as u32) << 8) | ((z as u32) << 16)) == x as u32 + 256 * (y as u32)
        + 65536 * (z as u32)) by (bit_vector);
    (x as u32) | ((y as u32) << 8) | ((z as u32) << 16)
}

} // verus!
