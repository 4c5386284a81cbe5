//! The 44-byte header of a RIFF/WAVE file that holds uncompressed PCM.

use crate::little_endian::{le16, le32, push_le16, push_le32};
use vstd::prelude::*;

verus! {

/// The length of the header in bytes.
pub const HEADER_BYTE_SIZE: u32 = 44;

/// The length of the format chunk's body in bytes.
pub const FORMAT_DATA_LEN: u32 = 16;

/// The format code of uncompressed PCM.
pub const FORMAT_PCM: u16 = 1;

/// The tag `"RIFF"` at the head of the file.
pub open spec fn tag_riff() -> Seq<u8> {
    seq![0x52u8, 0x49u8, 0x46u8, 0x46u8]
}

/// The tag `"WAVE"` of the file type.
pub open spec fn tag_wave() -> Seq<u8> {
    seq![0x57u8, 0x41u8, 0x56u8, 0x45u8]
}

/// The tag `"fmt "` of the format chunk.
pub open spec fn tag_fmt() -> Seq<u8> {
    seq![0x66u8, 0x6Du8, 0x74u8, 0x20u8]
}

/// The tag `"data"` of the data chunk.
pub open spec fn tag_data() -> Seq<u8> {
    seq![0x64u8, 0x61u8, 0x74u8, 0x61u8]
}

/// Why a header could not be written out.
#[derive(Clone, Copy, Debug, PartialEq, Eq, Structural)]
pub enum HeaderError {
    /// The header was asked for its bytes before the size of the payload
    /// was set.
    UnsizedHeaderSerialized,
}

/// What a header says: the three parameters it was made with and, once it
/// is known, the size of the payload. Every other field follows from these.
pub struct HeaderModel {
    /// Samples per second.
    pub sample_rate: u32,
    /// The number of channels.
    pub num_channels: u16,
    /// Bits in one sample of one channel.
    pub bits_per_sample: u16,
    /// The payload's length in bytes; `None` until it has been set.
    pub data_size: Option<u32>,
}

impl HeaderModel {
    /// Bytes of payload per second: rate times depth times channels, over 8.
    pub open spec fn byte_rate(self) -> int {
        self.sample_rate * self.bits_per_sample * self.num_channels / 8
    }

    /// Bytes in one frame, a sample of every channel: depth times channels,
    /// over 8.
    pub open spec fn block_align(self) -> int {
        self.bits_per_sample * self.num_channels / 8
    }

    /// The length of the whole file, header and payload; 0 until the
    /// payload's size has been set.
    pub open spec fn file_size(self) -> int {
        match self.data_size {
            Some(n) => HEADER_BYTE_SIZE + n,
            None => 0,
        }
    }

    /// Whether every derived field fits the width the layout gives it.
    pub open spec fn fits(self) -> bool {
        &&& self.sample_rate * self.bits_per_sample * self.num_channels <= u32::MAX
        &&& self.bits_per_sample * self.num_channels <= u16::MAX
        &&& self.file_size() <= u32::MAX
    }

    /// Whether the payload's size has been set.
    pub open spec fn is_sized(self) -> bool {
        self.data_size.is_some()
    }

    /// The 44 bytes of a sized header, field after field, every number least
    /// significant byte first. The RIFF chunk's size counts what follows its
    /// own eight bytes: the rest of the header and the payload.
    pub open spec fn to_bytes(self) -> Seq<u8>
        recommends
            self.is_sized(),
            self.fits(),
    {
        tag_riff() + le32((self.file_size() - 8) as u32) + tag_wave() + tag_fmt() + le32(
            FORMAT_DATA_LEN,
        ) + le16(FORMAT_PCM) + le16(self.num_channels) + le32(self.sample_rate) + le32(
            self.byte_rate() as u32,
        ) + le16(self.block_align() as u16) + le16(self.bits_per_sample) + tag_data() + le32(
            self.data_size.unwrap(),
        )
    }
}

/// A header is 44 bytes long.
pub proof fn lemma_header_len(m: HeaderModel)
    ensures
        m.to_bytes().len() == HEADER_BYTE_SIZE,
{
}

/// Where each field stands among the 44 bytes.
pub proof fn lemma_header_layout(m: HeaderModel)
    requires
        m.is_sized(),
    ensures
        m.to_bytes().subrange(0, 4) == tag_riff(),
        m.to_bytes().subrange(4, 8) == le32((36 + m.data_size.unwrap()) as u32),
        m.to_bytes().subrange(8, 12) == tag_wave(),
        m.to_bytes().subrange(12, 16) == tag_fmt(),
        m.to_bytes().subrange(16, 20) == le32(16),
        m.to_bytes().subrange(20, 22) == le16(1),
        m.to_bytes().subrange(22, 24) == le16(m.num_channels),
        m.to_bytes().subrange(24, 28) == le32(m.sample_rate),
        m.to_bytes().subrange(28, 32) == le32(m.byte_rate() as u32),
        m.to_bytes().subrange(32, 34) == le16(m.block_align() as u16),
        m.to_bytes().subrange(34, 36) == le16(m.bits_per_sample),
        m.to_bytes().subrange(36, 40) == tag_data(),
        m.to_bytes().subrange(40, 44) == le32(m.data_size.unwrap()),
{
    let b = m.to_bytes();
    assert(b.subrange(0, 4) =~= tag_riff());
    assert(b.subrange(4, 8) =~= le32((36 + m.data_size.unwrap()) as u32));
    assert(b.subrange(8, 12) =~= tag_wave());
    assert(b.subrange(12, 16) =~= tag_fmt());
    assert(b.subrange(16, 20) =~= le32(16));
    assert(b.subrange(20, 22) =~= le16(1));
    assert(b.subrange(22, 24) =~= le16(m.num_channels));
    assert(b.subrange(24, 28) =~= le32(m.sample_rate));
    assert(b.subrange(28, 32) =~= le32(m.byte_rate() as u32));
    assert(b.subrange(32, 34) =~= le16(m.block_align() as u16));
    assert(b.subrange(34, 36) =~= le16(m.bits_per_sample));
    assert(b.subrange(36, 40) =~= tag_data());
    assert(b.subrange(40, 44) =~= le32(m.data_size.unwrap()));
}

/// With a depth of whole bytes, a frame is the bytes of one sample times
/// the channels, and a second of payload is the rate times a frame.
pub proof fn lemma_whole_byte_depth(m: HeaderModel)
    requires
        m.bits_per_sample % 8 == 0,
    ensures
        m.block_align() == (m.bits_per_sample / 8) * m.num_channels,
        m.byte_rate() == m.sample_rate * m.block_align(),
{
    let k = (m.bits_per_sample / 8) as int;
    let c = m.num_channels as int;
    let r = m.sample_rate as int;
    assert(m.bits_per_sample == 8 * k);
    assert((8 * k) * c == 8 * (k * c)) by (nonlinear_arith);
    assert(r * (8 * k) * c == 8 * (r * (k * c))) by (nonlinear_arith);
    assert(8 * (k * c) / 8 == k * c);
    assert(8 * (r * (k * c)) / 8 == r * (k * c));
}

/// The header of a wave file.
///
/// A header is made without the size of the payload and cannot be written
/// out until `set_data_size` has told it.
pub struct WavHeader {
    /// Marks the file as a RIFF file (value: `"RIFF"`).
    riff: [u8; 4],
    /// Size of the overall file in bytes.
    file_size: u32,
    /// File type header (value: `"WAVE"`).
    file_type: [u8; 4],
    /// Format chunk marker (value: `"fmt "`).
    format_marker: [u8; 4],
    /// Length of the format data.
    format_data_len: u32,
    /// Type of format, where `1` is PCM.
    format_type: u16,
    /// The number of signal channels.
    num_channels: u16,
    /// The sample rate, i.e. number of samples per second.
    sample_rate: u32,
    /// The number of bytes per second: `(sample_rate * bits_per_sample * channels) / 8`.
    bit_rate: u32,
    /// `(bits_per_sample * channels) / 8`.
    bits_for_all_channels: u16,
    /// The bit depth, i.e. number of bits per sample.
    bits_per_sample: u16,
    /// Data chunk marker (value: `"data"`).
    data_header: [u8; 4],
    /// The size of the data section in bytes.
    data_size: u32,
}

impl View for WavHeader {
    type V = HeaderModel;

    closed spec fn view(&self) -> HeaderModel {
        HeaderModel {
            sample_rate: self.sample_rate,
            num_channels: self.num_channels,
            bits_per_sample: self.bits_per_sample,
            data_size: if self.file_size == 0 {
                None
            } else {
                Some(self.data_size)
            },
        }
    }
}

impl WavHeader {
    /// The fields agree with each other: the tags and the format are the
    /// fixed ones, the derived fields are what the parameters give, and the
    /// two sizes are both unset or both set.
    #[verifier::type_invariant]
    closed spec fn consistent(self) -> bool {
        &&& self.riff@ == tag_riff()
        &&& self.file_type@ == tag_wave()
        &&& self.format_marker@ == tag_fmt()
        &&& self.data_header@ == tag_data()
        &&& self.format_data_len == FORMAT_DATA_LEN
        &&& self.format_type == FORMAT_PCM
        &&& self@.fits()
        &&& self.bit_rate == self@.byte_rate()
        &&& self.bits_for_all_channels == self@.block_align()
        &&& self.file_size == self@.file_size()
        &&& self.file_size == 0 ==> self.data_size == 0
    }

    /// Creates a header for the given sample rate, bit depth and number of
    /// channels, with the size of the payload still unset.
    pub fn new(sample_rate: u32, bit_depth: u16, num_channels: u16) -> (r: Self)
        requires
            sample_rate * bit_depth * num_channels <= u32::MAX,
            bit_depth * num_channels <= u16::MAX,
        ensures
            r@ == (HeaderModel {
                sample_rate,
                num_channels,
                bits_per_sample: bit_depth,
                data_size: None,
            }),
    {
        assert(sample_rate * bit_depth <= sample_rate * bit_depth * num_channels || num_channels
            == 0) by (nonlinear_arith);
        assert(num_channels == 0 ==> sample_rate * bit_depth * num_channels == 0)
            by (nonlinear_arith);
        let bits_per_frame: u16 = bit_depth * num_channels;
        let bit_rate: u32 = if num_channels == 0 {
            0
        } else {
            sample_rate * (bit_depth as u32) * (num_channels as u32) / 8
        };
        let r = Self {
            riff: [0x52, 0x49, 0x46, 0x46],
            file_size: 0,
            file_type: [0x57, 0x41, 0x56, 0x45],
            format_marker: [0x66, 0x6D, 0x74, 0x20],
            format_data_len: FORMAT_DATA_LEN,
            format_type: FORMAT_PCM,
            num_channels,
            sample_rate,
            bit_rate,
            bits_for_all_channels: bits_per_frame / 8,
            bits_per_sample: bit_depth,
            data_header: [0x64, 0x61, 0x74, 0x61],
            data_size: 0,
        };
        proof {
            assert(r.riff@ =~= tag_riff());
            assert(r.file_type@ =~= tag_wave());
            assert(r.format_marker@ =~= tag_fmt());
            assert(r.data_header@ =~= tag_data());
        }
        r
    }

    /// Tells the header how many bytes of payload follow it. From then on
    /// it can be written out. May be called again with another size.
    pub fn set_data_size(&mut self, size_bytes: u32)
        requires
            HEADER_BYTE_SIZE + size_bytes <= u32::MAX,
        ensures
            final(self)@ == (HeaderModel { data_size: Some(size_bytes), ..old(self)@ }),
            final(self)@.is_sized(),
            final(self)@.file_size() == HEADER_BYTE_SIZE + size_bytes,
    {
        proof {
            use_type_invariant(&*self);
        }
        *self = Self { file_size: HEADER_BYTE_SIZE + size_bytes, data_size: size_bytes, ..*self };
    }

    /// Whether the size of the payload has been set.
    pub fn is_sized(&self) -> (r: bool)
        ensures
            r == self@.is_sized(),
    {
        self.file_size != 0
    }

    /// Samples per second.
    pub fn sample_rate(&self) -> (r: u32)
        ensures
            r == self@.sample_rate,
    {
        self.sample_rate
    }

    /// The number of channels.
    pub fn num_channels(&self) -> (r: u16)
        ensures
            r == self@.num_channels,
    {
        self.num_channels
    }

    /// Bits in one sample of one channel.
    pub fn bits_per_sample(&self) -> (r: u16)
        ensures
            r == self@.bits_per_sample,
    {
        self.bits_per_sample
    }

    /// Bytes of payload per second.
    pub fn byte_rate(&self) -> (r: u32)
        ensures
            r == self@.byte_rate(),
    {
        proof {
            use_type_invariant(self);
        }
        self.bit_rate
    }

    /// Bytes in one frame, a sample of every channel.
    pub fn block_align(&self) -> (r: u16)
        ensures
            r == self@.block_align(),
    {
        proof {
            use_type_invariant(self);
        }
        self.bits_for_all_channels
    }

    /// The length of the whole file in bytes, 0 while the payload's size is
    /// unset.
    pub fn file_size(&self) -> (r: u32)
        ensures
            r == self@.file_size(),
    {
        proof {
            use_type_invariant(self);
        }
        self.file_size
    }

    /// The length of the payload in bytes, 0 while it is unset.
    pub fn data_size(&self) -> (r: u32)
        ensures
            r == match self@.data_size {
                Some(n) => n,
                None => 0,
            },
    {
        proof {
            use_type_invariant(self);
        }
        self.data_size
    }

    /// The header as the 44 bytes that open the file, or an error while the
    /// size of the payload is unset.
    pub fn as_bytes(&self) -> (r: Result<Vec<u8>, HeaderError>)
        ensures
            match r {
                Ok(bytes) => self@.is_sized() && bytes@ == self@.to_bytes(),
                Err(e) => !self@.is_sized() && e == HeaderError::UnsizedHeaderSerialized,
            },
    {
        if self.is_sized() {
            Ok(self.sized_bytes())
        } else {
            Err(HeaderError::UnsizedHeaderSerialized)
        }
    }

    /// The 44 bytes of a header whose payload size has been set.
    pub(crate) fn sized_bytes(&self) -> (out: Vec<u8>)
        requires
            self@.is_sized(),
        ensures
            out@ == self@.to_bytes(),
    {
        proof {
            use_type_invariant(self);
        }
        let mut out: Vec<u8> = Vec::with_capacity(44);
        Self::push_tag(&mut out, &self.riff);
        push_le32(&mut out, self.file_size - 8);
        Self::push_tag(&mut out, &self.file_type);
        Self::push_tag(&mut out, &self.format_marker);
        push_le32(&mut out, self.format_data_len);
        push_le16(&mut out, self.format_type);
        push_le16(&mut out, self.num_channels);
        push_le32(&mut out, self.sample_rate);
        push_le32(&mut out, self.bit_rate);
        push_le16(&mut out, self.bits_for_all_channels);
        push_le16(&mut out, self.bits_per_sample);
        Self::push_tag(&mut out, &self.data_header);
        push_le32(&mut out, self.data_size);
        assert(out@ =~= self@.to_bytes());
        out
    }

    /// Appends the four bytes of a tag to `out`.
    fn push_tag(out: &mut Vec<u8>, tag: &[u8; 4])
        ensures
            final(out)@ == old(out)@ + tag@,
    {
        out.push(tag[0]);
        out.push(tag[1]);
        out.push(tag[2]);
        out.push(tag[3]);
        assert(out@ =~= old(out)@ + tag@);
    }
}

} // verus!
