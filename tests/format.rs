use pix::alpha::Mode as AlphaMode;
use pix::gamma::Mode as GammaMode;
use pix::{
    Ch16, Ch8, Channel, Convert, Format, Gray8, GrayAlpha8, Linear, Premultiplied, Rgb16, Rgb8,
    Rgba16, Rgba16p, Rgba8, Rgba8p, SGray16, SGray8, SRgb16, SRgb8, SRgba16, SRgba8, SRgba8p,
    Srgb, Straight,
};

fn c8(v: u8) -> Ch8 {
    Ch8::new(v)
}

fn c16(v: u16) -> Ch16 {
    Ch16::new(v)
}

#[test]
fn gray_to_rgb() {
    assert_eq!(SRgb8::new(c8(0xD9), c8(0xD9), c8(0xD9)), SGray8::new(c8(0xD9)).convert());
    assert_eq!(SRgb8::new(c8(0x33), c8(0x33), c8(0x33)), SGray16::new(c16(0x337F)).convert());
    assert_eq!(
        SRgb16::new(c16(0x2929), c16(0x2929), c16(0x2929)),
        SGray8::new(c8(0x29)).convert()
    );
    assert_eq!(
        SRgb16::new(c16(0x5593), c16(0x5593), c16(0x5593)),
        SGray16::new(c16(0x5593)).convert()
    );
}

#[test]
fn linear_to_srgb() {
    assert_eq!(
        SRgb8::new(c8(0xEF), c8(0x8C), c8(0xC7)),
        Rgb8::new(c8(0xDC), c8(0x43), c8(0x91)).convert()
    );
    assert_eq!(
        SRgb8::new(c8(0x66), c8(0xF4), c8(0xB5)),
        Rgb16::new(c16(0x2205), c16(0xE699), c16(0x7654)).convert()
    );
}

#[test]
fn srgb_to_linear() {
    assert_eq!(
        Rgb8::new(c8(0xDC), c8(0x43), c8(0x92)),
        SRgb8::new(c8(0xEF), c8(0x8C), c8(0xC7)).convert(),
    );
    assert_eq!(
        Rgb8::new(c8(0x22), c8(0xE7), c8(0x76)),
        SRgb16::new(c16(0x6673), c16(0xF453), c16(0xB593)).convert(),
    );
}

#[test]
fn straight_to_premultiplied() {
    assert_eq!(
        Rgba8p::with_alpha(c8(0x10), c8(0x20), c8(0x40), c8(0x80)),
        Rgba8::with_alpha(c8(0x20), c8(0x40), c8(0x80), c8(0x80)).convert(),
    );
    assert_eq!(
        Rgba8p::with_alpha(c8(0x04), c8(0x10), c8(0x20), c8(0x40)),
        Rgba16::with_alpha(c16(0x1000), c16(0x4000), c16(0x8000), c16(0x4000)).convert(),
    );
}

#[test]
fn premultiplied_to_straight() {
    assert_eq!(
        Rgba8::with_alpha(c8(0x40), c8(0x80), c8(0xFF), c8(0x80)),
        Rgba8p::with_alpha(c8(0x20), c8(0x40), c8(0x80), c8(0x80)).convert(),
    );
    assert_eq!(
        Rgba8::with_alpha(c8(0x40), c8(0xFF), c8(0x80), c8(0x40)),
        Rgba16p::with_alpha(c16(0x1000), c16(0x4000), c16(0x2000), c16(0x4000)).convert(),
    );
}

#[test]
fn straight_to_premultiplied_srgb() {
    assert_eq!(
        SRgba8p::with_alpha(c8(0x16), c8(0x2A), c8(0x5C), c8(0x80)),
        SRgba8::with_alpha(c8(0x20), c8(0x40), c8(0x80), c8(0x80)).convert(),
    );
    assert_eq!(
        SRgba8p::with_alpha(c8(0x0D), c8(0x1C), c8(0x40), c8(0x40)),
        SRgba16::with_alpha(c16(0x2000), c16(0x4000), c16(0x8000), c16(0x4000)).convert(),
    );
}

#[test]
fn premultiplied_round_trip_end_to_end() {
    let straight = Rgba8::with_alpha(c8(0x20), c8(0x40), c8(0x80), c8(0x80));
    let premultiplied: Rgba8p = straight.convert();
    assert_eq!(premultiplied, Rgba8p::with_alpha(c8(0x10), c8(0x20), c8(0x40), c8(0x80)));
    let back: Rgba8 = premultiplied.convert();
    let d = back.difference(straight);
    let one = Rgba8::with_alpha(c8(1), c8(1), c8(1), c8(0));
    assert!(d.within_threshold(one));
    assert_eq!(back, straight);
}

#[test]
fn gray_replicates_without_gamma_change() {
    let rgb: SRgb8 = SGray8::new(c8(0xD9)).convert();
    assert_eq!(rgb.red(), c8(0xD9));
    assert_eq!(rgb.green(), c8(0xD9));
    assert_eq!(rgb.blue(), c8(0xD9));
    assert_eq!(rgb.alpha(), Ch8::maximum());
}

#[test]
fn convert_to_same_format_is_identity() {
    let a = Rgba8p::with_alpha(c8(3), c8(200), c8(17), c8(90));
    assert_eq!(a.convert::<Rgba8p>(), a);
    let b = SRgba16::with_alpha(c16(3), c16(60000), c16(1234), c16(9));
    assert_eq!(b.convert::<SRgba16>(), b);
    let g = GrayAlpha8::with_alpha(c8(77), c8(12));
    assert_eq!(g.convert::<GrayAlpha8>(), g);
    let s = SGray16::new(c16(0x1234));
    assert_eq!(s.convert::<SGray16>(), s);
}

#[test]
fn premultiplied_decode_encode_within_a_step() {
    for a in [0x80u8, 0xC0, 0xFF] {
        for c in 0..=255u8 {
            let e = Premultiplied::encode(c8(c), c8(a));
            let d = Premultiplied::decode(e, c8(a));
            assert!((i32::from(d.get()) - i32::from(c)).abs() <= 1);
        }
    }
    assert_eq!(Premultiplied::decode(c8(100), c8(0)), c8(0));
    assert_eq!(Straight::encode(c8(100), c8(0)), c8(100));
    assert_eq!(Straight::decode(c8(100), c8(7)), c8(100));
}

#[test]
fn gamma_modes_apply_to_color_only() {
    assert_eq!(Linear::to_linear(c8(0xEF)), c8(0xEF));
    assert_eq!(Srgb::to_linear(c8(0xEF)), c8(0xDC));
    assert_eq!(Srgb::from_linear(c8(0xDC)), c8(0xEF));
    let p: Rgba8 = SRgba8::with_alpha(c8(0xEF), c8(0xEF), c8(0xEF), c8(0xEF)).convert();
    assert_eq!(p, Rgba8::with_alpha(c8(0xDC), c8(0xDC), c8(0xDC), c8(0xEF)));
}

#[test]
fn self_difference_within_zero_threshold() {
    let p = Rgba16::with_alpha(c16(9), c16(900), c16(9000), c16(90));
    let zero = Rgba16::with_alpha(c16(0), c16(0), c16(0), c16(0));
    assert!(p.difference(p).within_threshold(zero));
    assert_eq!(p.difference(p), zero);
    let g = Gray8::new(c8(40));
    assert!(g.difference(g).within_threshold(Gray8::new(c8(0))));
}

#[test]
fn difference_and_threshold() {
    let a = Rgba8::with_alpha(c8(10), c8(200), c8(30), c8(40));
    let b = Rgba8::with_alpha(c8(20), c8(100), c8(30), c8(45));
    assert_eq!(a.difference(b), Rgba8::with_alpha(c8(10), c8(100), c8(0), c8(5)));
    assert!(a.difference(b).within_threshold(Rgba8::with_alpha(c8(10), c8(100), c8(0), c8(5))));
    assert!(!a.difference(b).within_threshold(Rgba8::with_alpha(c8(9), c8(100), c8(0), c8(5))));
}

#[test]
fn opaque_alpha_reads_full() {
    let p = Rgb8::with_alpha(c8(1), c8(2), c8(3), c8(4));
    assert_eq!(p.alpha(), Ch8::maximum());
    assert_eq!(p.rgba(), [c8(1), c8(2), c8(3), Ch8::maximum()]);
    let g = Gray8::with_rgba([c8(5), c8(9), c8(7), c8(0)]);
    assert_eq!(g.value(), c8(9));
}

#[test]
fn alpha_mode_tags() {
    assert!(Premultiplied::is_premultiplied());
    assert!(!Straight::is_premultiplied());
    assert!(Srgb::is_srgb());
    assert!(!Linear::is_srgb());
}
