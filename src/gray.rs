//! Grayscale color model, with an opaque or translucent alpha channel.
use crate::alpha::{self, AChannel, Opaque, Premultiplied, Straight, Translucent};
use crate::channel::{Ch16, Ch8, Channel};
use crate::format::{all_within, Format};
use crate::mask::Mask;
use crate::gamma::{self, Linear, Srgb};
use core::marker::PhantomData;
use vstd::prelude::*;

verus! {

/// The brightest of three channels.
pub open spec fn brightest<C: Channel>(r: C, g: C, b: C) -> C {
    if r.value() >= g.value() && r.value() >= b.value() {
        r
    } else if g.value() >= b.value() {
        g
    } else {
        b
    }
}

/// Grayscale pixel with channel type `C`, alpha channel `A`, alpha mode `M`
/// and gamma mode `G`. Its red, green and blue channels all read as its gray
/// value.
#[derive(Copy, Debug, PartialEq, Eq)]
#[verifier::reject_recursive_types(C)]
pub struct Gray<C: Channel, A: AChannel<Chan = C>, M: alpha::Mode, G: gamma::Mode> {
    value: C,
    alpha: A,
    modes: PhantomData<(M, G)>,
}

/// Opaque 8-bit gray, linear gamma.
pub type Gray8 = Gray<Ch8, Opaque<Ch8>, Straight, Linear>;

/// Opaque 16-bit gray, linear gamma.
pub type Gray16 = Gray<Ch16, Opaque<Ch16>, Straight, Linear>;

/// Opaque 8-bit gray, sRGB gamma.
pub type SGray8 = Gray<Ch8, Opaque<Ch8>, Straight, Srgb>;

/// Opaque 16-bit gray, sRGB gamma.
pub type SGray16 = Gray<Ch16, Opaque<Ch16>, Straight, Srgb>;

/// 8-bit gray with straight alpha, linear gamma.
pub type GrayAlpha8 = Gray<Ch8, Translucent<Ch8>, Straight, Linear>;

/// 8-bit gray with premultiplied alpha, linear gamma.
pub type GrayAlpha8p = Gray<Ch8, Translucent<Ch8>, Premultiplied, Linear>;

impl<C: Channel, A: AChannel<Chan = C>, M: alpha::Mode, G: gamma::Mode> Clone for Gray<C, A, M, G> {
    fn clone(&self) -> (r: Gray<C, A, M, G>)
        ensures
            r == *self,
    {
        *self
    }
}

impl<C: Channel, A: AChannel<Chan = C>, M: alpha::Mode, G: gamma::Mode> Gray<C, A, M, G> {
    /// The pixel with gray value `v` and alpha channel `a`.
    pub closed spec fn spec_with_alpha(v: C, a: A) -> Gray<C, A, M, G> {
        Gray { value: v, alpha: a, modes: PhantomData }
    }

    /// Gray value and alpha channel.
    pub closed spec fn parts(self) -> (C, A) {
        (self.value, self.alpha)
    }

    /// `spec_with_alpha` and `parts` are inverse.
    pub proof fn lemma_parts(self, v: C, a: A)
        ensures
            Gray::<C, A, M, G>::spec_with_alpha(v, a).parts() == (v, a),
            Gray::<C, A, M, G>::spec_with_alpha(self.parts().0, self.parts().1) == self,
    {
    }

    /// Creates a fully opaque pixel with gray value `value`.
    pub fn new(value: C) -> (r: Gray<C, A, M, G>)
        ensures
            r.parts() == (value, A::of_channel(C::from_value(C::max_value()))),
    {
        let m = C::maximum();
        proof {
            m.lemma_value();
        }
        Gray { value, alpha: A::from_channel(m), modes: PhantomData }
    }

    /// Creates a pixel with gray value `value` and alpha `alpha`; an opaque
    /// alpha channel drops the alpha value.
    pub fn with_alpha(value: C, alpha: C) -> (r: Gray<C, A, M, G>)
        ensures
            r.parts() == (value, A::of_channel(alpha)),
    {
        Gray { value, alpha: A::from_channel(alpha), modes: PhantomData }
    }

    /// Gets the gray value.
    pub fn value(self) -> (r: C)
        ensures
            r == self.parts().0,
    {
        self.value
    }

    /// Gets the alpha value; full intensity for an opaque pixel.
    pub fn alpha(self) -> (r: C)
        ensures
            r == self.parts().1.alpha_value(),
    {
        self.alpha.value()
    }
}

impl<C: Channel, A: AChannel<Chan = C>, M: alpha::Mode, G: gamma::Mode> Format for Gray<
    C,
    A,
    M,
    G,
> {
    type Chan = C;

    type Alpha = M;

    type Gamma = G;

    open spec fn channels(self) -> Seq<C> {
        seq![self.parts().0, self.parts().0, self.parts().0, self.parts().1.alpha_value()]
    }

    open spec fn assemble(c: Seq<C>) -> Gray<C, A, M, G> {
        Gray::spec_with_alpha(brightest(c[0], c[1], c[2]), A::of_channel(c[3]))
    }

    proof fn lemma_channels(self) {
        let p = self.parts();
        p.1.lemma_alpha(p.1.alpha_value());
        self.lemma_parts(p.0, p.1);
    }

    proof fn lemma_zero_least(t: Gray<C, A, M, G>) {
        let z0 = C::from_value(0);
        let a = A::of_channel(z0);
        let z = Gray::<C, A, M, G>::spec_with_alpha(z0, a);
        z.lemma_parts(z0, a);
        C::lemma_max();
        C::lemma_from_value(0);
        C::lemma_from_value(C::max_value());
        let ta = t.parts().1;
        ta.lemma_alpha(z0);
        a.lemma_alpha(z0);
        ta.lemma_alpha(ta.alpha_value());
        A::of_channel(ta.alpha_value()).lemma_alpha(ta.alpha_value());
        t.parts().0.lemma_value();
        ta.alpha_value().lemma_value();
        assert(Seq::new(4, |i: int| C::from_value(0)) =~= seq![z0, z0, z0, z0]);
        assert(all_within(z.channels(), t.channels()));
    }

    fn rgba(self) -> (r: [C; 4]) {
        let r = [self.value, self.value, self.value, self.alpha.value()];
        assert(r@ =~= self.channels());
        r
    }

    fn with_rgba(rgba: [C; 4]) -> (r: Gray<C, A, M, G>) {
        let (red, green, blue) = (rgba[0], rgba[1], rgba[2]);
        let value = if green.at_most(red) && blue.at_most(red) {
            red
        } else if blue.at_most(green) {
            green
        } else {
            blue
        };
        let r = Gray::with_alpha(value, rgba[3]);
        proof {
            r.lemma_parts(value, A::of_channel(rgba[3]));
        }
        r
    }
}

/// A mask as a straight-alpha pixel: full-intensity color under the mask's
/// alpha.
impl<C: Channel, A: AChannel<Chan = C>, G: gamma::Mode> From<Mask<C>> for Gray<C, A, Straight, G> {
    fn from(mask: Mask<C>) -> (r: Gray<C, A, Straight, G>) {
        let m = C::maximum();
        proof {
            m.lemma_value();
        }
        let r = Gray::with_alpha(m, mask.alpha());
        proof {
            r.lemma_parts(m, A::of_channel(mask.spec_alpha()));
        }
        r
    }
}

impl<C: Channel, A: AChannel<Chan = C>, G: gamma::Mode> vstd::std_specs::convert::FromSpecImpl<Mask<C>> for Gray<C, A, Straight, G> {
    open spec fn obeys_from_spec() -> bool {
        true
    }

    open spec fn from_spec(mask: Mask<C>) -> Gray<C, A, Straight, G> {
        let full = C::from_value(C::max_value());
        Gray::spec_with_alpha(full, A::of_channel(mask.spec_alpha()))
    }
}

/// A mask as a premultiplied pixel: full-intensity color premultiplied by the
/// mask's alpha, which is the alpha itself.
impl<C: Channel, A: AChannel<Chan = C>, G: gamma::Mode> From<Mask<C>> for Gray<C, A, Premultiplied, G> {
    fn from(mask: Mask<C>) -> (r: Gray<C, A, Premultiplied, G>) {
        let a = mask.alpha();
        let r = Gray::with_alpha(a, a);
        proof {
            r.lemma_parts(a, A::of_channel(a));
        }
        r
    }
}

impl<C: Channel, A: AChannel<Chan = C>, G: gamma::Mode> vstd::std_specs::convert::FromSpecImpl<Mask<C>> for Gray<C, A, Premultiplied, G> {
    open spec fn obeys_from_spec() -> bool {
        true
    }

    open spec fn from_spec(mask: Mask<C>) -> Gray<C, A, Premultiplied, G> {
        Gray::spec_with_alpha(mask.spec_alpha(), A::of_channel(mask.spec_alpha()))
    }
}

} // verus!
