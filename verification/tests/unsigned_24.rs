use sinewav::unsigned_24_bit_int::u24;

#[test]
fn u24_bounds() {
    assert_eq!(u24::MIN, 0);
    assert_eq!(u24::MAX, 16_777_215);
    assert_eq!(u24::MAX, (1u32 << 24) - 1);
}

#[test]
fn u24_round_trip_within_range() {
    let picks: [u32; 9] = [0, 1, 255, 256, 65_535, 65_536, 0x12_3456, 0x80_0000, 0xFF_FFFF];
    for x in picks {
        assert_eq!(u24::new(x).to_u32(), x);
        assert_eq!(u24::from_u32(x).to_u32(), x);
    }
}

#[test]
fn u24_round_trip_sweep() {
    let mut x: u32 = 0;
    while x <= u24::MAX {
        assert_eq!(u24::new(x).to_u32(), x);
        x += 4099;
    }
}

#[test]
fn u24_new_drops_the_top_byte() {
    assert_eq!(u24::new(0x1234_5678).to_u32(), 0x34_5678);
    assert_eq!(u24::new(0x0100_0000).to_u32(), 0);
    assert_eq!(u24::new(u32::MAX).to_u32(), 0xFF_FFFF);
    assert_eq!(u24::new(0xFF00_0001).to_u32(), 1);
}

#[test]
fn u24_bytes_are_little_endian() {
    assert_eq!(u24::new(0x12_3456).to_le_bytes(), [0x56, 0x34, 0x12]);
    assert_eq!(u24::new(1).to_le_bytes(), [1, 0, 0]);
    assert_eq!(u24::new(0xAB00_0000).to_le_bytes(), [0, 0, 0]);
}

#[test]
fn u24_takes_three_bytes() {
    assert_eq!(std::mem::size_of::<u24>(), 3);
    assert_eq!(std::mem::align_of::<u24>(), 1);
}

#[test]
fn u24_load_overwrites() {
    let mut v = u24::new(7);
    v.load_from_u32(0x0A_0B0C);
    assert_eq!(v.to_u32(), 0x0A_0B0C);
    v.load_from_u32(0xFFFF_FFFE);
    assert_eq!(v.to_u32(), 0xFF_FFFE);
}

#[test]
fn u24_add() {
    assert_eq!((u24::new(5) + u24::new(7)).to_u32(), 12);
    assert_eq!((u24::new(0xFF_FFFF) + u24::new(1)).to_u32(), 0);
    assert_eq!((u24::new(0xFF_FFFF) + u24::new(0xFF_FFFF)).to_u32(), 0xFF_FFFE);
    assert_eq!((u24::new(0x80_0000) + u24::new(0x80_0000)).to_u32(), 0);
}

#[test]
fn u24_sub() {
    assert_eq!((u24::new(12) - u24::new(7)).to_u32(), 5);
    assert_eq!((u24::new(0) - u24::new(1)).to_u32(), 0xFF_FFFF);
    assert_eq!((u24::new(1) - u24::new(0xFF_FFFF)).to_u32(), 2);
    assert_eq!((u24::new(9) - u24::new(9)).to_u32(), 0);
}

#[test]
fn u24_mul() {
    assert_eq!((u24::new(6) * u24::new(7)).to_u32(), 42);
    assert_eq!((u24::new(4096) * u24::new(4096)).to_u32(), 0);
    assert_eq!((u24::new(0xFF_FFFF) * u24::new(0xFF_FFFF)).to_u32(), 1);
    assert_eq!((u24::new(0x10_0001) * u24::new(0x10)).to_u32(), 0x10);
    assert_eq!((u24::new(0x12_3456) * u24::new(0)).to_u32(), 0);
}

#[test]
fn u24_div() {
    assert_eq!((u24::new(42) / u24::new(5)).to_u32(), 8);
    assert_eq!((u24::new(0xFF_FFFF) / u24::new(16)).to_u32(), 0x0F_FFFF);
    assert_eq!((u24::new(3) / u24::new(0xFF_FFFF)).to_u32(), 0);
    assert_eq!((u24::new(0xFF_FFFF) / u24::new(1)).to_u32(), 0xFF_FFFF);
}

#[test]
fn u24_rem() {
    assert_eq!((u24::new(42) % u24::new(5)).to_u32(), 2);
    assert_eq!((u24::new(0xFF_FFFF) % u24::new(16)).to_u32(), 15);
    assert_eq!((u24::new(3) % u24::new(0xFF_FFFF)).to_u32(), 3);
    assert_eq!((u24::new(40) % u24::new(8)).to_u32(), 0);
}

#[test]
fn u24_assigning_forms() {
    let mut v = u24::new(0xFF_FFFF);
    v += u24::new(2);
    assert_eq!(v.to_u32(), 1);
    v -= u24::new(3);
    assert_eq!(v.to_u32(), 0xFF_FFFE);
    v *= u24::new(2);
    assert_eq!(v.to_u32(), 0xFF_FFFC);
    v /= u24::new(4);
    assert_eq!(v.to_u32(), 0x3F_FFFF);
    v %= u24::new(0x10_0000);
    assert_eq!(v.to_u32(), 0x0F_FFFF);
}

#[test]
fn u24_quotient_and_remainder_rebuild_the_dividend() {
    let pairs: [(u32, u32); 4] = [(1000, 7), (0xFF_FFFF, 255), (5, 9), (0x80_0000, 3)];
    for (a, b) in pairs {
        let q = (u24::new(a) / u24::new(b)).to_u32();
        let r = (u24::new(a) % u24::new(b)).to_u32();
        assert_eq!(q * b + r, a);
        assert!(r < b);
    }
}

#[test]
fn u24_equality_follows_the_value() {
    assert_eq!(u24::new(5), u24::new(0x0100_0005));
    assert_ne!(u24::new(5), u24::new(6));
    assert_eq!(u24::new(9).clone(), u24::new(9));
}

#[test]
fn u24_order_goes_by_the_stored_bytes() {
    assert!(u24::new(1) < u24::new(2));
    assert!(u24::new(0x00_0100) < u24::new(0x00_00FF));
    assert!(u24::new(0x00_0100).to_u32() > u24::new(0x00_00FF).to_u32());
}
