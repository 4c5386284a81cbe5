//! Uncompressed PCM audio in a RIFF/WAVE container: packed 24-bit sample
//! integers, the 44-byte header, and the little-endian byte layout of a
//! whole file.

pub mod encode;
pub mod header;
pub mod little_endian;
pub mod packed;
pub mod sample_types;
pub mod signed_24_bit_int;
pub mod unsigned_24_bit_int;
