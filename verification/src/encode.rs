//! The whole file: the header followed by the samples.

use crate::header::{lemma_header_len, HeaderModel, WavHeader, HEADER_BYTE_SIZE};
use crate::sample_types::SampleType;
use vstd::prelude::*;

verus! {

/// The payload of a file: the bytes of each sample in turn, with nothing
/// between them.
pub open spec fn payload_bytes<T: SampleType>(samples: Seq<T>) -> Seq<u8>
    decreases samples.len(),
{
    if samples.len() == 0 {
        Seq::empty()
    } else {
        payload_bytes(samples.drop_last()) + samples.last().le_bytes()
    }
}

/// What the header of a file of `count` samples of format `T` says.
pub open spec fn wav_header_model<T: SampleType>(
    count: nat,
    sample_rate: u32,
    num_channels: u16,
) -> HeaderModel {
    HeaderModel {
        sample_rate,
        num_channels,
        bits_per_sample: (8 * T::width()) as u16,
        data_size: Some((count * T::width()) as u32),
    }
}

/// Whether a file of `count` samples of format `T` can be described by a
/// header: the payload's length and the derived fields fit their widths.
pub open spec fn wav_fits<T: SampleType>(count: nat, sample_rate: u32, num_channels: u16) -> bool {
    &&& HEADER_BYTE_SIZE + count * T::width() <= u32::MAX
    &&& sample_rate * (8 * T::width()) * num_channels <= u32::MAX
    &&& 8 * T::width() * num_channels <= u16::MAX
}

/// The bytes of a whole file: its header, then its payload.
pub open spec fn wav_bytes<T: SampleType>(
    samples: Seq<T>,
    sample_rate: u32,
    num_channels: u16,
) -> Seq<u8> {
    wav_header_model::<T>(samples.len(), sample_rate, num_channels).to_bytes() + payload_bytes(
        samples,
    )
}

/// The payload is as long as the samples are many, times the width.
pub proof fn lemma_payload_len<T: SampleType>(samples: Seq<T>)
    ensures
        payload_bytes(samples).len() == samples.len() * T::width(),
    decreases samples.len(),
{
    if samples.len() > 0 {
        lemma_payload_len(samples.drop_last());
        samples.last().lemma_width();
        assert(samples.len() * T::width() == (samples.len() - 1) * T::width() + T::width())
            by (nonlinear_arith);
    }
}

/// Sample `i` stands in the payload at `i` times the width, whole and in
/// its own byte order.
pub proof fn lemma_payload_sample<T: SampleType>(samples: Seq<T>, i: int)
    requires
        0 <= i < samples.len(),
    ensures
        (i + 1) * T::width() <= payload_bytes(samples).len(),
        payload_bytes(samples).subrange(i * T::width(), (i + 1) * T::width())
            == samples[i].le_bytes(),
    decreases samples.len(),
{
    let w = T::width() as int;
    let n = samples.len() as int;
    let front = samples.drop_last();
    lemma_payload_len(samples);
    lemma_payload_len(front);
    samples.last().lemma_width();
    assert(n * w == (n - 1) * w + w) by (nonlinear_arith);
    assert((i + 1) * w == i * w + w) by (nonlinear_arith);
    assert(0 <= i * w) by (nonlinear_arith)
        requires
            0 <= i,
            0 <= w,
    ;
    if i == n - 1 {
        assert(payload_bytes(samples).subrange(i * w, (i + 1) * w) =~= samples[i].le_bytes());
    } else {
        lemma_payload_sample(front, i);
        assert((i + 1) * w <= (n - 1) * w) by (nonlinear_arith)
            requires
                i + 1 <= n - 1,
                0 <= w,
        ;
        assert(payload_bytes(samples).subrange(i * w, (i + 1) * w) =~= payload_bytes(
            front,
        ).subrange(i * w, (i + 1) * w));
        assert(front[i] == samples[i]);
    }
}

/// The sizes that the header of a file gives are the sizes the file has:
/// the payload is as long as the header's data size says, and header and
/// payload together are as long as its file size says.
pub proof fn lemma_wav_sizes<T: SampleType>(samples: Seq<T>, sample_rate: u32, num_channels: u16)
    requires
        wav_fits::<T>(samples.len(), sample_rate, num_channels),
    ensures
        wav_header_model::<T>(samples.len(), sample_rate, num_channels).fits(),
        wav_header_model::<T>(samples.len(), sample_rate, num_channels).data_size == Some(
            payload_bytes(samples).len() as u32,
        ),
        wav_header_model::<T>(samples.len(), sample_rate, num_channels).file_size() == wav_bytes(
            samples,
            sample_rate,
            num_channels,
        ).len(),
        wav_bytes(samples, sample_rate, num_channels).len() == HEADER_BYTE_SIZE + samples.len()
            * T::width(),
{
    T::lemma_width_bounds();
    lemma_payload_len(samples);
    lemma_header_len(wav_header_model::<T>(samples.len(), sample_rate, num_channels));
}

/// The samples as the bytes of a payload.
pub fn slice_to_bytes<T: SampleType>(data: &[T]) -> (r: Vec<u8>)
    ensures
        r@ == payload_bytes(data@),
{
    let mut out: Vec<u8> = Vec::new();
    let mut i: usize = 0;
    while i < data.len()
        invariant
            0 <= i <= data.len(),
            out@ == payload_bytes(data@.subrange(0, i as int)),
        decreases data.len() - i,
    {
        data[i].write_le(&mut out);
        proof {
            let next = data@.subrange(0, i + 1);
            assert(next.drop_last() =~= data@.subrange(0, i as int));
            assert(next.last() == data@[i as int]);
        }
        i += 1;
    }
    assert(data@.subrange(0, i as int) =~= data@);
    out
}

/// A whole wave file of the given samples: the header that describes them,
/// then their bytes.
pub fn create_wav<T: SampleType>(samples: &[T], sample_rate: u32, num_channels: u16) -> (r: Vec<
    u8,
>)
    requires
        wav_fits::<T>(samples@.len(), sample_rate, num_channels),
    ensures
        r@ == wav_bytes(samples@, sample_rate, num_channels),
        r@.len() == HEADER_BYTE_SIZE + samples@.len() * T::width(),
{
    let mut payload = slice_to_bytes(samples);
    proof {
        lemma_wav_sizes(samples@, sample_rate, num_channels);
    }
    let mut header = WavHeader::new(sample_rate, T::bit_depth(), num_channels);
    header.set_data_size(payload.len() as u32);
    let mut file = header.sized_bytes();
    file.append(&mut payload);
    file
}

/// Whether a file of `count` samples of format `T` can be described by a
/// header, as `create_wav` asks.
pub fn can_create_wav<T: SampleType>(count: usize, sample_rate: u32, num_channels: u16) -> (r: bool)
    ensures
        r == wav_fits::<T>(count as nat, sample_rate, num_channels),
{
    proof {
        T::lemma_width_bounds();
    }
    let bits: u64 = T::bit_depth() as u64;
    let width: u64 = bits / 8;
    let room: u64 = (u32::MAX - HEADER_BYTE_SIZE) as u64;
    let channels: u64 = num_channels as u64;
    assert(count * T::width() <= room <==> count <= room / width) by (nonlinear_arith)
        requires
            1 <= width <= 4,
            width == T::width(),
            0 <= count,
            0 <= room,
    ;
    assert(bits * channels <= 32 * 0xFFFF) by (nonlinear_arith)
        requires
            bits <= 32,
            channels <= 0xFFFF,
    ;
    assert(sample_rate * (bits * channels) <= 0xFFFF_FFFF * (32 * 0xFFFF)) by (nonlinear_arith)
        requires
            sample_rate <= 0xFFFF_FFFF,
            bits * channels <= 32 * 0xFFFF,
    ;
    assert(sample_rate * (8 * T::width()) * num_channels == sample_rate * (bits * channels))
        by (nonlinear_arith)
        requires
            bits == 8 * T::width(),
            channels == num_channels,
    ;
    let payload_fits = count as u64 <= room / width;
    let rate_fits = (sample_rate as u64) * (bits * channels) <= u32::MAX as u64;
    let frame_fits = bits * channels <= u16::MAX as u64;
    payload_fits && rate_fits && frame_fits
}

/// A whole wave file of the given samples, or `None` where no header can
/// describe them.
pub fn try_create_wav<T: SampleType>(samples: &[T], sample_rate: u32, num_channels: u16) -> (r:
    Option<Vec<u8>>)
    ensures
        match r {
            Some(file) => wav_fits::<T>(samples@.len(), sample_rate, num_channels) && file@
                == wav_bytes(samples@, sample_rate, num_channels),
            None => !wav_fits::<T>(samples@.len(), sample_rate, num_channels),
        },
{
    if can_create_wav::<T>(samples.len(), sample_rate, num_channels) {
        Some(create_wav(samples, sample_rate, num_channels))
    } else {
        None
    }
}

} // verus!
