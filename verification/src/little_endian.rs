//! Little-endian byte order for the 16-bit and 32-bit fields of a file.

use vstd::prelude::*;

verus! {

/// The two bytes of `n`, least significant first.
pub open spec fn le16(n: u16) -> Seq<u8> {
    seq![(n % 256) as u8, (n / 256) as u8]
}

/// The four bytes of `n`, least significant first.
pub open spec fn le32(n: u32) -> Seq<u8> {
    seq![
        (n % 256) as u8,
        (n / 256 % 256) as u8,
        (n / 65536 % 256) as u8,
        (n / 16777216) as u8,
    ]
}

/// The number that the bytes of `b` spell, least significant first.
pub open spec fn le_value(b: Seq<u8>) -> nat
    decreases b.len(),
{
    if b.len() == 0 {
        0
    } else {
        b[0] as nat + 256 * le_value(b.skip(1))
    }
}

/// `le16` and `le32` write a number that `le_value` reads back.
pub proof fn lemma_le_value(a: u16, b: u32)
    ensures
        le16(a).len() == 2,
        le32(b).len() == 4,
        le_value(le16(a)) == a,
        le_value(le32(b)) == b,
{
    reveal_with_fuel(le_value, 5);
    let s = le16(a);
    assert(s.skip(1) =~= seq![s[1]]);
    assert(s.skip(1).skip(1) =~= Seq::<u8>::empty());
    let t = le32(b);
    assert(t.skip(1) =~= seq![t[1], t[2], t[3]]);
    assert(t.skip(1).skip(1) =~= seq![t[2], t[3]]);
    assert(t.skip(1).skip(1).skip(1) =~= seq![t[3]]);
    assert(t.skip(1).skip(1).skip(1).skip(1) =~= Seq::<u8>::empty());
}

/// Appends the two bytes of `n` to `out`, least significant first.
pub fn push_le16(out: &mut Vec<u8>, n: u16)
    ensures
        final(out)@ == old(out)@ + le16(n),
{
    out.push((n % 256) as u8);
    out.push((n / 256) as u8);
    assert(out@ =~= old(out)@ + le16(n));
}

/// Appends the four bytes of `n` to `out`, least significant first.
pub fn push_le32(out: &mut Vec<u8>, n: u32)
    ensures
        final(out)@ == old(out)@ + le32(n),
{
    out.push((n % 256) as u8);
    out.push((n / 256 % 256) as u8);
    out.push((n / 65536 % 256) as u8);
    out.push((n / 16777216) as u8);
    assert(out@ =~= old(out)@ + le32(n));
}

} // verus!
