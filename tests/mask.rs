use pix::{
    Ch16, Ch8, Channel, Convert, Format, GrayAlpha8, GrayAlpha8p, Mask16, Mask8, Rgba8, Rgba8p,
    SRgb8, Translucent,
};

#[test]
fn mask_reads_full_color() {
    let m = Mask8::new(Ch8::new(0x40));
    assert_eq!(m.alpha(), Ch8::new(0x40));
    assert_eq!(m.rgba(), [Ch8::maximum(), Ch8::maximum(), Ch8::maximum(), Ch8::new(0x40)]);
    assert_eq!(Mask8::with_rgba([Ch8::new(1), Ch8::new(2), Ch8::new(3), Ch8::new(4)]), Mask8::new(Ch8::new(4)));
}

#[test]
fn mask_multiplies_alpha() {
    let m = Mask8::new(Ch8::new(255)) * Mask8::new(Ch8::new(128));
    assert_eq!(m.alpha(), Ch8::new(128));
    let t = Translucent::new(Ch16::new(32768)) * Translucent::new(Ch16::new(32768));
    assert_eq!(Mask16::new(Ch16::new(16384)).alpha(), Ch16::new(16384));
    let _ = t;
}

#[test]
fn mask_difference_and_threshold() {
    let a = Mask8::new(Ch8::new(30));
    let b = Mask8::new(Ch8::new(50));
    assert_eq!(a.difference(b), Mask8::new(Ch8::new(20)));
    assert!(a.within_threshold(b));
    assert!(!b.within_threshold(a));
}

#[test]
fn mask_converts_to_rgba() {
    let straight: Rgba8 = Mask8::new(Ch8::new(0x80)).convert();
    assert_eq!(straight, Rgba8::with_alpha(Ch8::maximum(), Ch8::maximum(), Ch8::maximum(), Ch8::new(0x80)));
    let premultiplied: Rgba8p = Mask8::new(Ch8::new(0x80)).convert();
    assert_eq!(
        premultiplied,
        Rgba8p::with_alpha(Ch8::new(0x80), Ch8::new(0x80), Ch8::new(0x80), Ch8::new(0x80))
    );
}

#[test]
fn check_sizes() {
    assert_eq!(std::mem::size_of::<Mask8>(), 1);
    assert_eq!(std::mem::size_of::<Mask16>(), 2);
}

#[test]
fn mask_into_color_models() {
    let m = Mask8::new(Ch8::new(0x80));
    assert_eq!(
        Rgba8::from(m),
        Rgba8::with_alpha(Ch8::maximum(), Ch8::maximum(), Ch8::maximum(), Ch8::new(0x80))
    );
    assert_eq!(
        Rgba8p::from(m),
        Rgba8p::with_alpha(Ch8::new(0x80), Ch8::new(0x80), Ch8::new(0x80), Ch8::new(0x80))
    );
    assert_eq!(GrayAlpha8::from(m), GrayAlpha8::with_alpha(Ch8::maximum(), Ch8::new(0x80)));
    assert_eq!(GrayAlpha8p::from(m), GrayAlpha8p::with_alpha(Ch8::new(0x80), Ch8::new(0x80)));
    assert_eq!(SRgb8::from(m), SRgb8::new(Ch8::maximum(), Ch8::maximum(), Ch8::maximum()));
}
