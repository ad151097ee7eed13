//! RGB color model, with an opaque or translucent alpha channel.
use crate::alpha::{self, AChannel, Opaque, Premultiplied, Straight, Translucent};
use crate::channel::{Ch16, Ch8, Channel};
use crate::format::{all_within, Format};
use crate::mask::Mask;
use crate::gamma::{self, Linear, Srgb};
use core::marker::PhantomData;
use vstd::prelude::*;

verus! {

/// RGB pixel with channel type `C`, alpha channel `A`, alpha mode `M` and
/// gamma mode `G`.
#[derive(Copy, Debug, PartialEq, Eq)]
#[verifier::reject_recursive_types(C)]
pub struct Rgb<C: Channel, A: AChannel<Chan = C>, M: alpha::Mode, G: gamma::Mode> {
    red: C,
    green: C,
    blue: C,
    alpha: A,
    modes: PhantomData<(M, G)>,
}

/// Opaque 8-bit RGB, linear gamma.
pub type Rgb8 = Rgb<Ch8, Opaque<Ch8>, Straight, Linear>;

/// Opaque 16-bit RGB, linear gamma.
pub type Rgb16 = Rgb<Ch16, Opaque<Ch16>, Straight, Linear>;

/// Opaque 8-bit RGB, sRGB gamma.
pub type SRgb8 = Rgb<Ch8, Opaque<Ch8>, Straight, Srgb>;

/// Opaque 16-bit RGB, sRGB gamma.
pub type SRgb16 = Rgb<Ch16, Opaque<Ch16>, Straight, Srgb>;

/// 8-bit RGB with straight alpha, linear gamma.
pub type Rgba8 = Rgb<Ch8, Translucent<Ch8>, Straight, Linear>;

/// 16-bit RGB with straight alpha, linear gamma.
pub type Rgba16 = Rgb<Ch16, Translucent<Ch16>, Straight, Linear>;

/// 8-bit RGB with premultiplied alpha, linear gamma.
pub type Rgba8p = Rgb<Ch8, Translucent<Ch8>, Premultiplied, Linear>;

/// 16-bit RGB with premultiplied alpha, linear gamma.
pub type Rgba16p = Rgb<Ch16, Translucent<Ch16>, Premultiplied, Linear>;

/// 8-bit RGB with straight alpha, sRGB gamma.
pub type SRgba8 = Rgb<Ch8, Translucent<Ch8>, Straight, Srgb>;

/// 16-bit RGB with straight alpha, sRGB gamma.
pub type SRgba16 = Rgb<Ch16, Translucent<Ch16>, Straight, Srgb>;

/// 8-bit RGB with premultiplied alpha, sRGB gamma.
pub type SRgba8p = Rgb<Ch8, Translucent<Ch8>, Premultiplied, Srgb>;

/// 16-bit RGB with premultiplied alpha, sRGB gamma.
pub type SRgba16p = Rgb<Ch16, Translucent<Ch16>, Premultiplied, Srgb>;

impl<C: Channel, A: AChannel<Chan = C>, M: alpha::Mode, G: gamma::Mode> Clone for Rgb<C, A, M, G> {
    fn clone(&self) -> (r: Rgb<C, A, M, G>)
        ensures
            r == *self,
    {
        *self
    }
}

impl<C: Channel, A: AChannel<Chan = C>, M: alpha::Mode, G: gamma::Mode> Rgb<C, A, M, G> {
    /// The pixel with channels red `r`, green `g`, blue `b` and alpha `a`.
    pub closed spec fn spec_with_alpha(r: C, g: C, b: C, a: A) -> Rgb<C, A, M, G> {
        Rgb { red: r, green: g, blue: b, alpha: a, modes: PhantomData }
    }

    /// Red, green and blue channels and the alpha channel.
    pub closed spec fn parts(self) -> (C, C, C, A) {
        (self.red, self.green, self.blue, self.alpha)
    }

    /// `spec_with_alpha` and `parts` are inverse.
    pub proof fn lemma_parts(self, r: C, g: C, b: C, a: A)
        ensures
            Rgb::<C, A, M, G>::spec_with_alpha(r, g, b, a).parts() == (r, g, b, a),
            Rgb::<C, A, M, G>::spec_with_alpha(
                self.parts().0,
                self.parts().1,
                self.parts().2,
                self.parts().3,
            ) == self,
    {
    }

    /// Creates a pixel from red, green and blue channels, fully opaque.
    pub fn new(red: C, green: C, blue: C) -> (r: Rgb<C, A, M, G>)
        ensures
            r.parts() == (red, green, blue, A::of_channel(C::from_value(C::max_value()))),
    {
        let m = C::maximum();
        proof {
            m.lemma_value();
        }
        let alpha = A::from_channel(m);
        Rgb { red, green, blue, alpha, modes: PhantomData }
    }

    /// Creates a pixel from red, green, blue and alpha channels; an opaque
    /// alpha channel drops the alpha value.
    pub fn with_alpha(red: C, green: C, blue: C, alpha: C) -> (r: Rgb<C, A, M, G>)
        ensures
            r.parts() == (red, green, blue, A::of_channel(alpha)),
    {
        Rgb { red, green, blue, alpha: A::from_channel(alpha), modes: PhantomData }
    }

    /// Gets the red channel.
    pub fn red(self) -> (r: C)
        ensures
            r == self.parts().0,
    {
        self.red
    }

    /// Gets the green channel.
    pub fn green(self) -> (r: C)
        ensures
            r == self.parts().1,
    {
        self.green
    }

    /// Gets the blue channel.
    pub fn blue(self) -> (r: C)
        ensures
            r == self.parts().2,
    {
        self.blue
    }

    /// Gets the alpha value; full intensity for an opaque pixel.
    pub fn alpha(self) -> (r: C)
        ensures
            r == self.parts().3.alpha_value(),
    {
        self.alpha.value()
    }
}

impl<C: Channel, A: AChannel<Chan = C>, M: alpha::Mode, G: gamma::Mode> Format for Rgb<
    C,
    A,
    M,
    G,
> {
    type Chan = C;

    type Alpha = M;

    type Gamma = G;

    open spec fn channels(self) -> Seq<C> {
        seq![self.parts().0, self.parts().1, self.parts().2, self.parts().3.alpha_value()]
    }

    open spec fn assemble(c: Seq<C>) -> Rgb<C, A, M, G> {
        Rgb::spec_with_alpha(c[0], c[1], c[2], A::of_channel(c[3]))
    }

    proof fn lemma_channels(self) {
        let p = self.parts();
        p.3.lemma_alpha(p.3.alpha_value());
        self.lemma_parts(p.0, p.1, p.2, p.3);
    }

    proof fn lemma_zero_least(t: Rgb<C, A, M, G>) {
        let z0 = C::from_value(0);
        let a = A::of_channel(z0);
        let z = Rgb::<C, A, M, G>::spec_with_alpha(z0, z0, z0, a);
        z.lemma_parts(z0, z0, z0, a);
        C::lemma_max();
        C::lemma_from_value(0);
        C::lemma_from_value(C::max_value());
        let ta = t.parts().3;
        ta.lemma_alpha(z0);
        a.lemma_alpha(z0);
        ta.lemma_alpha(ta.alpha_value());
        A::of_channel(ta.alpha_value()).lemma_alpha(ta.alpha_value());
        t.parts().0.lemma_value();
        t.parts().1.lemma_value();
        t.parts().2.lemma_value();
        ta.alpha_value().lemma_value();
        assert(Seq::new(4, |i: int| C::from_value(0)) =~= seq![z0, z0, z0, z0]);
        assert(all_within(z.channels(), t.channels()));
    }

    fn rgba(self) -> (r: [C; 4]) {
        let r = [self.red, self.green, self.blue, self.alpha.value()];
        assert(r@ =~= self.channels());
        r
    }

    fn with_rgba(rgba: [C; 4]) -> (r: Rgb<C, A, M, G>) {
        let r = Rgb::with_alpha(rgba[0], rgba[1], rgba[2], rgba[3]);
        proof {
            r.lemma_parts(rgba[0], rgba[1], rgba[2], A::of_channel(rgba[3]));
        }
        r
    }
}

/// A mask as a straight-alpha pixel: full-intensity color under the mask's
/// alpha.
impl<C: Channel, A: AChannel<Chan = C>, G: gamma::Mode> From<Mask<C>> for Rgb<C, A, Straight, G> {
    fn from(mask: Mask<C>) -> (r: Rgb<C, A, Straight, G>) {
        let m = C::maximum();
        proof {
            m.lemma_value();
        }
        let r = Rgb::with_alpha(m, m, m, mask.alpha());
        proof {
            r.lemma_parts(m, m, m, A::of_channel(mask.spec_alpha()));
        }
        r
    }
}

impl<C: Channel, A: AChannel<Chan = C>, G: gamma::Mode> vstd::std_specs::convert::FromSpecImpl<Mask<C>> for Rgb<C, A, Straight, G> {
    open spec fn obeys_from_spec() -> bool {
        true
    }

    open spec fn from_spec(mask: Mask<C>) -> Rgb<C, A, Straight, G> {
        let full = C::from_value(C::max_value());
        Rgb::spec_with_alpha(full, full, full, A::of_channel(mask.spec_alpha()))
    }
}

/// A mask as a premultiplied pixel: full-intensity color premultiplied by the
/// mask's alpha, which is the alpha itself.
impl<C: Channel, A: AChannel<Chan = C>, G: gamma::Mode> From<Mask<C>> for Rgb<C, A, Premultiplied, G> {
    fn from(mask: Mask<C>) -> (r: Rgb<C, A, Premultiplied, G>) {
        let a = mask.alpha();
        let r = Rgb::with_alpha(a, a, a, a);
        proof {
            r.lemma_parts(a, a, a, A::of_channel(a));
        }
        r
    }
}

impl<C: Channel, A: AChannel<Chan = C>, G: gamma::Mode> vstd::std_specs::convert::FromSpecImpl<Mask<C>> for Rgb<C, A, Premultiplied, G> {
    open spec fn obeys_from_spec() -> bool {
        true
    }

    open spec fn from_spec(mask: Mask<C>) -> Rgb<C, A, Premultiplied, G> {
        Rgb::spec_with_alpha(mask.spec_alpha(), mask.spec_alpha(), mask.spec_alpha(), A::of_channel(mask.spec_alpha()))
    }
}

} // verus!
