//! Pixel formats and conversion between them.
use crate::alpha::{self, alpha_decode, alpha_encode, Mode as _};
use crate::channel::{rescale, rescale_channel, Channel};
use crate::gamma::{self, gamma_from_linear, gamma_to_linear, Mode as _};
use vstd::prelude::*;

verus! {

/// Channel-wise absolute difference.
pub open spec fn abs_diff<C: Channel>(a: C, b: C) -> C {
    C::from_value(
        if a.value() > b.value() {
            a.value() - b.value()
        } else {
            b.value() - a.value()
        },
    )
}

/// Whether every channel of `c` is at most the same channel of `t`.
pub open spec fn all_within<C: Channel>(c: Seq<C>, t: Seq<C>) -> bool {
    forall|i: int| 0 <= i < 4 ==> (#[trigger] c[i]).value() <= t[i].value()
}

/// Color channel `c` under alpha `a` moved from the alpha and gamma modes
/// of one format to those of another: into linear light, out of the source
/// alpha mode and into the destination one (only where the two differ), and
/// out of linear light.
pub open spec fn transfer<C: Channel>(
    c: C,
    a: C,
    src_premultiplied: bool,
    src_srgb: bool,
    dst_premultiplied: bool,
    dst_srgb: bool,
) -> C {
    let lin = gamma_to_linear(src_srgb, c);
    let mid = if src_premultiplied != dst_premultiplied {
        alpha_encode(dst_premultiplied, alpha_decode(src_premultiplied, lin, a), a)
    } else {
        lin
    };
    gamma_from_linear(dst_srgb, mid)
}

/// Whether formats `S` and `D` have the same alpha mode and gamma mode.
pub open spec fn same_modes<S: Format, D: Format>() -> bool {
    S::Alpha::premultiplied() == D::Alpha::premultiplied() && S::Gamma::srgb()
        == D::Gamma::srgb()
}

/// The channels of a pixel of `S` moved to the bit depth of `D`.
pub open spec fn rescaled<S: Format, D: Format>(c: Seq<S::Chan>) -> Seq<D::Chan> {
    Seq::new(
        4,
        |i: int|
            D::Chan::from_value(
                rescale(c[i].value(), S::Chan::max_value(), D::Chan::max_value()),
            ),
    )
}

/// The channels of a pixel of `S` converted to format `D`: moved to the bit
/// depth of `D`, then, where the alpha or gamma modes differ, the color
/// channels are moved to the modes of `D` under the rescaled alpha.
pub open spec fn converted<S: Format, D: Format>(c: Seq<S::Chan>) -> Seq<D::Chan> {
    let r = rescaled::<S, D>(c);
    if same_modes::<S, D>() {
        r
    } else {
        Seq::new(
            4,
            |i: int|
                if i < 3 {
                    transfer(
                        r[i],
                        r[3],
                        S::Alpha::premultiplied(),
                        S::Gamma::srgb(),
                        D::Alpha::premultiplied(),
                        D::Gamma::srgb(),
                    )
                } else {
                    r[3]
                },
        )
    }
}

/// Pixel format: bit depth, alpha mode and gamma mode, with the red, green,
/// blue and alpha channels of each pixel.
pub trait Format: Sized + Copy {
    /// Channel type, which fixes the bit depth.
    type Chan: Channel;

    /// Alpha mode.
    type Alpha: alpha::Mode;

    /// Gamma mode.
    type Gamma: gamma::Mode;

    /// Red, green, blue and alpha channels of a pixel.
    spec fn channels(self) -> Seq<Self::Chan>;

    /// The pixel made from red, green, blue and alpha channels `c`.
    spec fn assemble(c: Seq<Self::Chan>) -> Self;

    /// A pixel has four channels and is made back from them.
    proof fn lemma_channels(self)
        ensures
            self.channels().len() == 4,
            Self::assemble(self.channels()) == self,
    ;

    /// The pixel made from four zero channels is within any threshold.
    proof fn lemma_zero_least(t: Self)
        ensures
            all_within(
                Self::assemble(Seq::new(4, |i: int| Self::Chan::from_value(0))).channels(),
                t.channels(),
            ),
    ;

    /// Gets the red, green, blue and alpha channels.
    fn rgba(self) -> (r: [Self::Chan; 4])
        ensures
            r@ == self.channels(),
    ;

    /// Makes a pixel from red, green, blue and alpha channels.
    fn with_rgba(rgba: [Self::Chan; 4]) -> (r: Self)
        ensures
            r == Self::assemble(rgba@),
    ;

    /// Channel-wise absolute difference.
    fn difference(self, rhs: Self) -> (r: Self)
        ensures
            r == Self::assemble(
                Seq::new(4, |i: int| abs_diff(self.channels()[i], rhs.channels()[i])),
            ),
    {
        let a = self.rgba();
        let b = rhs.rgba();
        let d = [
            channel_difference(a[0], b[0]),
            channel_difference(a[1], b[1]),
            channel_difference(a[2], b[2]),
            channel_difference(a[3], b[3]),
        ];
        assert(d@ =~= Seq::new(4, |i: int| abs_diff(self.channels()[i], rhs.channels()[i])));
        Self::with_rgba(d)
    }

    /// Whether every channel is at most the same channel of threshold `rhs`.
    fn within_threshold(self, rhs: Self) -> (r: bool)
        ensures
            r == all_within(self.channels(), rhs.channels()),
    {
        let a = self.rgba();
        let b = rhs.rgba();
        a[0].at_most(b[0]) && a[1].at_most(b[1]) && a[2].at_most(b[2]) && a[3].at_most(b[3])
    }
}

/// Absolute difference of two channels.
fn channel_difference<C: Channel>(a: C, b: C) -> (r: C)
    ensures
        r == abs_diff(a, b),
{
    proof {
        a.lemma_value();
        b.lemma_value();
    }
    let r = if b.at_most(a) {
        a.saturating_sub(b)
    } else {
        b.saturating_sub(a)
    };
    proof {
        r.lemma_value();
    }
    r
}

/// Conversion of a pixel to another format.
pub trait Convert: Format {
    /// Converts this pixel to format `D`.
    fn convert<D: Format>(self) -> (r: D)
        ensures
            r == D::assemble(converted::<Self, D>(self.channels())),
    ;
}

impl<S: Format> Convert for S {
    fn convert<D: Format>(self) -> (r: D) {
        proof {
            self.lemma_channels();
        }
        let rgba = self.rgba();
        let mut out: [D::Chan; 4] = [
            rescale_channel::<S::Chan, D::Chan>(rgba[0]),
            rescale_channel::<S::Chan, D::Chan>(rgba[1]),
            rescale_channel::<S::Chan, D::Chan>(rgba[2]),
            rescale_channel::<S::Chan, D::Chan>(rgba[3]),
        ];
        proof {
            assert forall|i: int| 0 <= i < 4 implies out@[i] == rescaled::<S, D>(
                self.channels(),
            )[i] by {
                out@[i].lemma_value();
            }
            assert(out@ =~= rescaled::<S, D>(self.channels()));
        }
        if S::Alpha::is_premultiplied() != D::Alpha::is_premultiplied() || S::Gamma::is_srgb()
            != D::Gamma::is_srgb() {
            convert_alpha_gamma::<S, D>(&mut out);
        }
        assert(out@ =~= converted::<S, D>(self.channels()));
        D::with_rgba(out)
    }
}

/// Moves the color channels of `rgba`, at the bit depth of `D`, from the
/// alpha and gamma modes of `S` to those of `D`; alpha stays as it is.
fn convert_alpha_gamma<S: Format, D: Format>(rgba: &mut [D::Chan; 4])
    ensures
        final(rgba)@ == Seq::new(
            4,
            |i: int|
                if i < 3 {
                    transfer(
                        old(rgba)@[i],
                        old(rgba)@[3],
                        S::Alpha::premultiplied(),
                        S::Gamma::srgb(),
                        D::Alpha::premultiplied(),
                        D::Gamma::srgb(),
                    )
                } else {
                    old(rgba)@[3]
                },
        ),
{
    let a = rgba[3];
    let r = transfer_channel::<S, D>(rgba[0], a);
    let g = transfer_channel::<S, D>(rgba[1], a);
    let b = transfer_channel::<S, D>(rgba[2], a);
    let ghost before = rgba@;
    *rgba = [r, g, b, a];
    assert(rgba@ =~= Seq::new(
        4,
        |i: int|
            if i < 3 {
                transfer(
                    before[i],
                    before[3],
                    S::Alpha::premultiplied(),
                    S::Gamma::srgb(),
                    D::Alpha::premultiplied(),
                    D::Gamma::srgb(),
                )
            } else {
                before[3]
            },
    ));
}

/// Moves one color channel under alpha `a` from the modes of `S` to those of
/// `D`, in the fixed order: into linear light, out of the source alpha mode,
/// into the destination alpha mode, out of linear light.
fn transfer_channel<S: Format, D: Format>(c: D::Chan, a: D::Chan) -> (r: D::Chan)
    ensures
        r == transfer(
            c,
            a,
            S::Alpha::premultiplied(),
            S::Gamma::srgb(),
            D::Alpha::premultiplied(),
            D::Gamma::srgb(),
        ),
{
    let lin = S::Gamma::to_linear(c);
    let mid = if S::Alpha::is_premultiplied() != D::Alpha::is_premultiplied() {
        D::Alpha::encode(S::Alpha::decode(lin, a), a)
    } else {
        lin
    };
    D::Gamma::from_linear(mid)
}

/// Converting a pixel to its own format gives the pixel back.
pub proof fn lemma_convert_identity<F: Format>(p: F)
    ensures
        F::assemble(converted::<F, F>(p.channels())) == p,
{
    p.lemma_channels();
    let c = p.channels();
    assert forall|i: int| 0 <= i < 4 implies rescaled::<F, F>(c)[i] == c[i] by {
        c[i].lemma_value();
    }
    assert(rescaled::<F, F>(c) =~= c);
}

/// The difference of a pixel with itself is within every threshold, the
/// zero one included.
pub proof fn lemma_self_difference_within<F: Format>(p: F, t: F)
    ensures
        all_within(
            F::assemble(Seq::new(4, |i: int| abs_diff(p.channels()[i], p.channels()[i]))).channels(),
            t.channels(),
        ),
{
    assert(Seq::new(4, |i: int| abs_diff(p.channels()[i], p.channels()[i])) =~= Seq::new(
        4,
        |i: int| F::Chan::from_value(0),
    ));
    F::lemma_zero_least(t);
}

} // verus!
