use pix::{Ch16, Ch8, Channel};

/// An 8-bit channel for a fraction, rounded to the nearest step.
fn ch8(v: f32) -> Ch8 {
    Ch8::new((v * 255.0).round() as u8)
}

/// A 16-bit channel for a fraction, rounded to the nearest step.
fn ch16(v: f32) -> Ch16 {
    Ch16::new((v * 65535.0).round() as u16)
}

#[test]
fn ch8_into() {
    assert_eq!(Ch8::new(255), 255.into());
    assert_eq!(Ch8::new(128), 128.into());
    assert_eq!(Ch8::new(64), 64.into());
    assert_eq!(Ch8::new(32), 32.into());
    for i in 0..=255 {
        let c8 = Ch8::new(i);
        let c16: Ch16 = c8.into();
        assert_eq!(c8, c16.into());
    }
    assert_eq!(Ch16::new(0), Ch8::new(0).into());
    assert_eq!(Ch8::new(128), Ch16::new(32768).into());
    assert_eq!(Ch16::new(65535), Ch8::new(255).into());
}

#[test]
fn ch16_into() {
    assert_eq!(Ch16::new(65535), 65535.into());
    assert_eq!(Ch16::new(32768), 32768.into());
    assert_eq!(Ch16::new(16384), 16384.into());
    assert_eq!(Ch16::new(8192), 8192.into());
}

#[test]
fn ch8_mul() {
    assert_eq!(Ch8::new(255), Ch8::new(255) * ch8(1.0));
    assert_eq!(Ch8::new(128), Ch8::new(255) * ch8(0.5));
    assert_eq!(Ch8::new(64), Ch8::new(255) * ch8(0.25));
    assert_eq!(Ch8::new(32), Ch8::new(255) * ch8(0.125));
    assert_eq!(Ch8::new(16), Ch8::new(255) * ch8(0.0625));
    assert_eq!(Ch8::new(64), Ch8::new(128) * ch8(0.5));
    assert_eq!(Ch8::new(32), Ch8::new(128) * ch8(0.25));
    assert_eq!(Ch8::new(16), Ch8::new(128) * ch8(0.125));
    assert_eq!(Ch8::new(8), Ch8::new(128) * ch8(0.0625));
}

#[test]
fn ch8_div() {
    assert_eq!(Ch8::new(255), Ch8::new(255) / ch8(1.0));
    assert_eq!(Ch8::new(255), Ch8::new(128) / ch8(0.5));
    assert_eq!(Ch8::new(255), Ch8::new(64) / ch8(0.25));
    assert_eq!(Ch8::new(255), Ch8::new(32) / ch8(0.125));
    assert_eq!(Ch8::new(255), Ch8::new(16) / ch8(0.0625));
    assert_eq!(Ch8::new(128), Ch8::new(128) / ch8(1.0));
    assert_eq!(Ch8::new(128), Ch8::new(64) / ch8(0.5));
    assert_eq!(Ch8::new(128), Ch8::new(32) / ch8(0.25));
    assert_eq!(Ch8::new(128), Ch8::new(16) / ch8(0.125));
    assert_eq!(Ch8::new(64), Ch8::new(64) / ch8(1.0));
    assert_eq!(Ch8::new(64), Ch8::new(32) / ch8(0.5));
    assert_eq!(Ch8::new(64), Ch8::new(16) / ch8(0.25));
}

#[test]
fn ch16_mul() {
    assert_eq!(Ch16::new(65535), Ch16::new(65535) * ch16(1.0));
    assert_eq!(Ch16::new(32768), Ch16::new(65535) * ch16(0.5));
    assert_eq!(Ch16::new(16384), Ch16::new(65535) * ch16(0.25));
    assert_eq!(Ch16::new(8192), Ch16::new(65535) * ch16(0.125));
    assert_eq!(Ch16::new(4096), Ch16::new(65535) * ch16(0.0625));
    assert_eq!(Ch16::new(16384), Ch16::new(32768) * ch16(0.5));
    assert_eq!(Ch16::new(8192), Ch16::new(32768) * ch16(0.25));
    assert_eq!(Ch16::new(4096), Ch16::new(32768) * ch16(0.125));
    assert_eq!(Ch16::new(2048), Ch16::new(32768) * ch16(0.0625));
}

#[test]
fn ch16_div() {
    assert_eq!(Ch16::new(65535), Ch16::new(65535) / ch16(1.0));
    assert_eq!(Ch16::new(65535), Ch16::new(32768) / ch16(0.5));
    assert_eq!(Ch16::new(65535), Ch16::new(16384) / ch16(0.25));
    assert_eq!(Ch16::new(65535), Ch16::new(8192) / ch16(0.125));
    assert_eq!(Ch16::new(65535), Ch16::new(4096) / ch16(0.0625));
    assert_eq!(Ch16::new(32768), Ch16::new(32768) / ch16(1.0));
    assert_eq!(Ch16::new(32768), Ch16::new(16384) / ch16(0.5));
    assert_eq!(Ch16::new(32768), Ch16::new(8192) / ch16(0.25));
    assert_eq!(Ch16::new(32768), Ch16::new(4096) / ch16(0.125));
    assert_eq!(Ch16::new(16384), Ch16::new(16384) / ch16(1.0));
    assert_eq!(Ch16::new(16384), Ch16::new(8192) / ch16(0.5));
    assert_eq!(Ch16::new(16384), Ch16::new(4096) / ch16(0.25));
}

#[test]
fn widen_narrow_round_trip_every_byte() {
    for v in 0..=255u8 {
        let wide = Ch16::from(Ch8::new(v));
        assert_eq!(wide.get(), u16::from(v) * 257);
        assert_eq!(Ch8::from(wide), Ch8::new(v));
    }
}

#[test]
fn narrowing_truncates() {
    assert_eq!(Ch8::from(Ch16::new(0x80ff)), Ch8::new(0x80));
    assert_eq!(Ch8::from(Ch16::new(0x00ff)), Ch8::new(0));
}

#[test]
fn max_times_max_and_min() {
    assert_eq!(Ch8::maximum() * Ch8::maximum(), Ch8::maximum());
    assert_eq!(Ch8::maximum() * Ch8::minimum(), Ch8::minimum());
    assert_eq!(Ch16::maximum() * Ch16::maximum(), Ch16::maximum());
    assert_eq!(Ch16::maximum() * Ch16::minimum(), Ch16::minimum());
}

#[test]
fn fixed_point_halves() {
    assert_eq!(Ch8::new(255) * Ch8::new(128), Ch8::new(128));
    assert_eq!(Ch8::new(128) * Ch8::new(128), Ch8::new(64));
    assert_eq!(Ch8::new(128) / Ch8::new(128), Ch8::new(255));
    assert_eq!(Ch8::new(64) / Ch8::new(128), Ch8::new(128));
}

#[test]
fn product_formula_values() {
    // (16 * 200 + 12) * (16 * 100 + 6) / 65536 = 3212 * 1606 / 65536
    assert_eq!((Ch8::new(200) * Ch8::new(100)).get(), 78);
    // (256 * 1000 + 3) * (256 * 30000 + 117) / 2^32
    assert_eq!((Ch16::new(1000) * Ch16::new(30000)).get(), 457);
}

#[test]
fn division_by_zero_is_zero() {
    assert_eq!(Ch8::new(200) / Ch8::new(0), Ch8::new(0));
    assert_eq!(Ch16::new(200) / Ch16::new(0), Ch16::new(0));
    assert_eq!(Ch8::new(0) / Ch8::new(0), Ch8::new(0));
}

#[test]
fn division_saturates() {
    assert_eq!(Ch8::new(200) / Ch8::new(100), Ch8::new(255));
    assert_eq!(Ch8::new(50) / Ch8::new(100), Ch8::new(128));
    assert_eq!(Ch16::new(60000) / Ch16::new(1000), Ch16::new(65535));
}

#[test]
fn add_and_sub_saturate() {
    assert_eq!(Ch8::new(200) + Ch8::new(100), Ch8::new(255));
    assert_eq!(Ch8::new(20) + Ch8::new(100), Ch8::new(120));
    assert_eq!(Ch8::new(20) - Ch8::new(100), Ch8::new(0));
    assert_eq!(Ch8::new(120) - Ch8::new(100), Ch8::new(20));
    assert_eq!(Ch16::new(65000) + Ch16::new(1000), Ch16::new(65535));
    assert_eq!(Ch16::new(10) - Ch16::new(1000), Ch16::new(0));
}

#[test]
fn ordering_follows_value() {
    assert!(Ch8::new(3) < Ch8::new(4));
    assert!(Ch16::new(300) > Ch16::new(4));
    assert!(Ch8::new(3).at_most(Ch8::new(3)));
    assert!(!Ch8::new(4).at_most(Ch8::new(3)));
}

#[test]
fn srgb_tables_round_trip() {
    let mut outside = 0;
    for v in 0..=255u8 {
        let c = Ch8::new(v);
        let back = c.decode_srgb().encode_srgb();
        if (i32::from(back.get()) - i32::from(v)).abs() > 1 {
            outside += 1;
        }
        let lin = c.encode_srgb().decode_srgb();
        assert!((i32::from(lin.get()) - i32::from(v)).abs() <= 1);
    }
    assert_eq!(outside, 26);
    assert_eq!(Ch8::new(0xEF).decode_srgb(), Ch8::new(0xDC));
    assert_eq!(Ch8::new(0xDC).encode_srgb(), Ch8::new(0xEF));
}

#[test]
fn srgb_sixteen_bit_follows_eight_bit_codes() {
    for v in [0u8, 1, 0x40, 0x80, 0xEF, 0xFF] {
        let wide = Ch16::from(Ch8::new(v));
        assert_eq!(Ch8::from(wide.decode_srgb()).get(), Ch8::new(v).decode_srgb().get());
    }
    assert_eq!(Ch16::new(0).decode_srgb(), Ch16::new(0));
    assert_eq!(Ch16::new(65535).decode_srgb(), Ch16::new(65535));
    assert_eq!(Ch16::new(65535).encode_srgb(), Ch16::new(65535));
    assert_ne!(Ch16::new(0x8000).encode_srgb(), Ch16::new(0x8000));
}

#[test]
fn raw_values_come_back() {
    assert_eq!(u8::from(Ch8::new(0x9A)), 0x9A);
    assert_eq!(u16::from(Ch16::new(0x9ABC)), 0x9ABC);
    assert_eq!(Ch8::minimum().get(), 0);
    assert_eq!(Ch16::maximum().get(), 65535);
}
