//! The sample formats: integers of 8, 16, 24 and 32 bits, each with the
//! bytes it contributes to a payload.

use crate::little_endian::{le16, le32, push_le16, push_le32};
use crate::signed_24_bit_int::i24;
use crate::unsigned_24_bit_int::u24;
use vstd::prelude::*;

verus! {

/// A type whose values can be the samples of a wave file.
///
/// A format is a width and, for each value, that many bytes in
/// little-endian order. A new format is a new impl: nothing here names
/// the formats that exist.
pub trait SampleType: Sized {
    /// Bytes in one sample, from 1 to 4.
    spec fn width() -> nat;

    /// The bytes of one sample as the payload holds them, least
    /// significant first.
    spec fn le_bytes(&self) -> Seq<u8>;

    /// A format is from one to four bytes wide.
    proof fn lemma_width_bounds()
        ensures
            1 <= Self::width() <= 4,
    ;

    /// Every sample is as long as the format is wide.
    proof fn lemma_width(&self)
        ensures
            self.le_bytes().len() == Self::width(),
    ;

    /// Bits in one sample: eight for each byte.
    fn bit_depth() -> (r: u16)
        ensures
            r == 8 * Self::width(),
    ;

    /// Appends the bytes of the sample to `out`.
    fn write_le(&self, out: &mut Vec<u8>)
        ensures
            final(out)@ == old(out)@ + self.le_bytes(),
    ;
}

/// The unsigned number with the same 16 bits as `n` in two's complement.
pub open spec fn unsigned16(n: i16) -> u16 {
    if n < 0 {
        (n + 0x1_0000) as u16
    } else {
        n as u16
    }
}

/// The unsigned number with the same 32 bits as `n` in two's complement.
pub open spec fn unsigned32(n: i32) -> u32 {
    if n < 0 {
        (n + 0x1_0000_0000) as u32
    } else {
        n as u32
    }
}

impl SampleType for u8 {
    open spec fn width() -> nat {
        1
    }

    open spec fn le_bytes(&self) -> Seq<u8> {
        seq![*self]
    }

    proof fn lemma_width_bounds() {
    }

    proof fn lemma_width(&self) {
    }

    fn bit_depth() -> (r: u16) {
        8
    }

    fn write_le(&self, out: &mut Vec<u8>) {
        out.push(*self);
    }
}

impl SampleType for u16 {
    open spec fn width() -> nat {
        2
    }

    open spec fn le_bytes(&self) -> Seq<u8> {
        le16(*self)
    }

    proof fn lemma_width_bounds() {
    }

    proof fn lemma_width(&self) {
    }

    fn bit_depth() -> (r: u16) {
        16
    }

    fn write_le(&self, out: &mut Vec<u8>) {
        push_le16(out, *self);
    }
}

impl SampleType for i16 {
    open spec fn width() -> nat {
        2
    }

    open spec fn le_bytes(&self) -> Seq<u8> {
        le16(unsigned16(*self))
    }

    proof fn lemma_width_bounds() {
    }

    proof fn lemma_width(&self) {
    }

    fn bit_depth() -> (r: u16) {
        16
    }

    fn write_le(&self, out: &mut Vec<u8>) {
        let bits: u16 = if *self < 0 {
            (*self as i32 + 0x1_0000) as u16
        } else {
            *self as u16
        };
        push_le16(out, bits);
    }
}

impl SampleType for u24 {
    open spec fn width() -> nat {
        3
    }

    open spec fn le_bytes(&self) -> Seq<u8> {
        self.bytes()
    }

    proof fn lemma_width_bounds() {
    }

    proof fn lemma_width(&self) {
        self.lemma_range();
    }

    fn bit_depth() -> (r: u16) {
        24
    }

    fn write_le(&self, out: &mut Vec<u8>) {
        let b: [u8; 3] = self.to_le_bytes();
        out.push(b[0]);
        out.push(b[1]);
        out.push(b[2]);
        assert(out@ =~= old(out)@ + self.le_bytes());
    }
}

impl SampleType for i24 {
    open spec fn width() -> nat {
        3
    }

    open spec fn le_bytes(&self) -> Seq<u8> {
        self.bytes()
    }

    proof fn lemma_width_bounds() {
    }

    proof fn lemma_width(&self) {
        self.lemma_range();
    }

    fn bit_depth() -> (r: u16) {
        24
    }

    fn write_le(&self, out: &mut Vec<u8>) {
        let b: [u8; 3] = self.to_le_bytes();
        out.push(b[0]);
        out.push(b[1]);
        out.push(b[2]);
        assert(out@ =~= old(out)@ + self.le_bytes());
    }
}

impl SampleType for u32 {
    open spec fn width() -> nat {
        4
    }

    open spec fn le_bytes(&self) -> Seq<u8> {
        le32(*self)
    }

    proof fn lemma_width_bounds() {
    }

    proof fn lemma_width(&self) {
    }

    fn bit_depth() -> (r: u16) {
        32
    }

    fn write_le(&self, out: &mut Vec<u8>) {
        push_le32(out, *self);
    }
}

impl SampleType for i32 {
    open spec fn width() -> nat {
        4
    }

    open spec fn le_bytes(&self) -> Seq<u8> {
        le32(unsigned32(*self))
    }

    proof fn lemma_width_bounds() {
    }

    proof fn lemma_width(&self) {
    }

    fn bit_depth() -> (r: u16) {
        32
    }

    fn write_le(&self, out: &mut Vec<u8>) {
        let bits: u32 = if *self < 0 {
            (*self as i64 + 0x1_0000_0000) as u32
        } else {
            *self as u32
        };
        push_le32(out, bits);
    }
}

} // verus!
