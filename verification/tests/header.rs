use sinewav::header::{HeaderError, WavHeader, FORMAT_DATA_LEN, FORMAT_PCM, HEADER_BYTE_SIZE};

fn u16_at(bytes: &[u8], at: usize) -> u16 {
    u16::from_le_bytes([bytes[at], bytes[at + 1]])
}

fn u32_at(bytes: &[u8], at: usize) -> u32 {
    u32::from_le_bytes([bytes[at], bytes[at + 1], bytes[at + 2], bytes[at + 3]])
}

#[test]
fn header_constants() {
    assert_eq!(HEADER_BYTE_SIZE, 44);
    assert_eq!(FORMAT_DATA_LEN, 16);
    assert_eq!(FORMAT_PCM, 1);
}

#[test]
fn new_header_keeps_its_parameters() {
    let h = WavHeader::new(44_100, 16, 2);
    assert_eq!(h.sample_rate(), 44_100);
    assert_eq!(h.bits_per_sample(), 16);
    assert_eq!(h.num_channels(), 2);
}

#[test]
fn new_header_derives_rate_and_alignment() {
    let h = WavHeader::new(44_100, 16, 2);
    assert_eq!(h.byte_rate(), 176_400);
    assert_eq!(h.block_align(), 4);
    let mono8 = WavHeader::new(44_100, 8, 1);
    assert_eq!(mono8.byte_rate(), 44_100);
    assert_eq!(mono8.block_align(), 1);
    let surround24 = WavHeader::new(48_000, 24, 6);
    assert_eq!(surround24.byte_rate(), 864_000);
    assert_eq!(surround24.block_align(), 18);
    let wide = WavHeader::new(96_000, 32, 2);
    assert_eq!(wide.byte_rate(), 768_000);
    assert_eq!(wide.block_align(), 8);
}

#[test]
fn header_depth_of_part_bytes_rounds_down() {
    let h = WavHeader::new(44_100, 12, 1);
    assert_eq!(h.byte_rate(), 66_150);
    assert_eq!(h.block_align(), 1);
    let pair = WavHeader::new(8_000, 12, 3);
    assert_eq!(pair.byte_rate(), 36_000);
    assert_eq!(pair.block_align(), 4);
    let odd = WavHeader::new(3, 3, 1);
    assert_eq!(odd.byte_rate(), 1);
    assert_eq!(odd.block_align(), 0);
}

#[test]
fn header_at_the_limits_of_its_fields() {
    let h = WavHeader::new(u32::MAX, 1, 1);
    assert_eq!(h.byte_rate(), u32::MAX / 8);
    let g = WavHeader::new(1, u16::MAX, 1);
    assert_eq!(g.block_align(), u16::MAX / 8);
    let none = WavHeader::new(u32::MAX, u16::MAX, 0);
    assert_eq!(none.byte_rate(), 0);
    assert_eq!(none.block_align(), 0);
}

#[test]
fn new_header_is_unsized() {
    let h = WavHeader::new(44_100, 16, 2);
    assert!(!h.is_sized());
    assert_eq!(h.file_size(), 0);
    assert_eq!(h.data_size(), 0);
}

#[test]
fn unsized_header_has_no_bytes() {
    let h = WavHeader::new(44_100, 16, 2);
    assert_eq!(h.as_bytes(), Err(HeaderError::UnsizedHeaderSerialized));
}

#[test]
fn set_data_size_sets_both_sizes() {
    let sizes: [u32; 5] = [0, 1, 1000, 88_200, u32::MAX - 44];
    for n in sizes {
        let mut h = WavHeader::new(44_100, 16, 2);
        h.set_data_size(n);
        assert!(h.is_sized());
        assert_eq!(h.data_size(), n);
        assert_eq!(h.file_size(), HEADER_BYTE_SIZE + n);
    }
}

#[test]
fn set_data_size_leaves_the_rest() {
    let mut h = WavHeader::new(22_050, 24, 2);
    h.set_data_size(600);
    assert_eq!(h.sample_rate(), 22_050);
    assert_eq!(h.bits_per_sample(), 24);
    assert_eq!(h.num_channels(), 2);
    assert_eq!(h.byte_rate(), 132_300);
    assert_eq!(h.block_align(), 6);
}

#[test]
fn set_data_size_again_replaces_the_size() {
    let mut h = WavHeader::new(44_100, 16, 2);
    h.set_data_size(1000);
    h.set_data_size(8);
    assert_eq!(h.data_size(), 8);
    assert_eq!(h.file_size(), 52);
    h.set_data_size(0);
    assert!(h.is_sized());
    assert_eq!(h.file_size(), 44);
    assert!(h.as_bytes().is_ok());
}

#[test]
fn sized_header_byte_for_byte() {
    let mut h = WavHeader::new(44_100, 16, 2);
    h.set_data_size(1000);
    let expected: Vec<u8> = vec![
        0x52, 0x49, 0x46, 0x46, // RIFF
        0x0C, 0x04, 0x00, 0x00, // 36 + 1000
        0x57, 0x41, 0x56, 0x45, // WAVE
        0x66, 0x6D, 0x74, 0x20, // fmt
        0x10, 0x00, 0x00, 0x00, // 16
        0x01, 0x00, // PCM
        0x02, 0x00, // channels
        0x44, 0xAC, 0x00, 0x00, // 44100
        0x10, 0xB1, 0x02, 0x00, // 176400
        0x04, 0x00, // frame
        0x10, 0x00, // depth
        0x64, 0x61, 0x74, 0x61, // data
        0xE8, 0x03, 0x00, 0x00, // 1000
    ];
    assert_eq!(h.as_bytes(), Ok(expected));
}

#[test]
fn sized_header_tags() {
    let mut h = WavHeader::new(8_000, 8, 1);
    h.set_data_size(0);
    let bytes = h.as_bytes().unwrap();
    assert_eq!(bytes.len(), 44);
    assert_eq!(&bytes[0..4], b"RIFF");
    assert_eq!(&bytes[8..12], b"WAVE");
    assert_eq!(&bytes[12..16], b"fmt ");
    assert_eq!(&bytes[36..40], b"data");
}

#[test]
fn sized_header_fields_by_offset() {
    let mut h = WavHeader::new(48_000, 24, 6);
    h.set_data_size(0x0102_0304);
    let bytes = h.as_bytes().unwrap();
    assert_eq!(u32_at(&bytes, 4), 36 + 0x0102_0304);
    assert_eq!(u32_at(&bytes, 16), 16);
    assert_eq!(u16_at(&bytes, 20), 1);
    assert_eq!(u16_at(&bytes, 22), 6);
    assert_eq!(u32_at(&bytes, 24), 48_000);
    assert_eq!(u32_at(&bytes, 28), 864_000);
    assert_eq!(u16_at(&bytes, 32), 18);
    assert_eq!(u16_at(&bytes, 34), 24);
    assert_eq!(u32_at(&bytes, 40), 0x0102_0304);
    assert_eq!(&bytes[40..44], &[0x04, 0x03, 0x02, 0x01]);
}

#[test]
fn sized_header_of_the_largest_payload() {
    let mut h = WavHeader::new(44_100, 8, 1);
    h.set_data_size(u32::MAX - 44);
    let bytes = h.as_bytes().unwrap();
    assert_eq!(u32_at(&bytes, 4), u32::MAX - 8);
    assert_eq!(u32_at(&bytes, 40), u32::MAX - 44);
}

#[test]
fn header_error_can_be_copied_and_compared() {
    let e = HeaderError::UnsizedHeaderSerialized;
    let f = e;
    assert_eq!(e, f);
    assert_eq!(format!("{:?}", e), "UnsizedHeaderSerialized");
}
