//! Alpha mask pixel format.
use crate::alpha::{AChannel, Straight, Translucent};
use crate::channel::{Ch16, Ch8, Channel};
use crate::format::{all_within, Format};
use crate::gamma::Linear;
use vstd::prelude::*;

verus! {

/// Translucent alpha mask: a pixel that holds alpha alone. Its color
/// channels read as full intensity.
#[derive(Clone, Copy, Debug, Default, PartialEq, Eq)]
pub struct Mask<C: Channel> {
    alpha: Translucent<C>,
}

/// 8-bit alpha mask.
pub type Mask8 = Mask<Ch8>;

/// 16-bit alpha mask.
pub type Mask16 = Mask<Ch16>;

impl<C: Channel> Mask<C> {
    /// The mask with alpha value `alpha`.
    pub closed spec fn spec_new(alpha: C) -> Mask<C> {
        Mask { alpha: Translucent::spec_new(alpha) }
    }

    /// The alpha value of the mask.
    pub closed spec fn spec_alpha(self) -> C {
        self.alpha.stored()
    }

    /// `spec_new` and `spec_alpha` are inverse.
    pub proof fn lemma_spec_new(self, alpha: C)
        ensures
            Mask::spec_new(alpha).spec_alpha() == alpha,
            Mask::spec_new(self.spec_alpha()) == self,
    {
        self.alpha.lemma_stored(alpha);
    }

    /// Creates a mask with alpha value `alpha`.
    pub fn new(alpha: C) -> (r: Mask<C>)
        ensures
            r == Mask::spec_new(alpha),
            r.spec_alpha() == alpha,
    {
        let r = Mask { alpha: Translucent::new(alpha) };
        proof {
            r.lemma_spec_new(alpha);
        }
        r
    }

    /// Gets the alpha value.
    pub fn alpha(self) -> (r: C)
        ensures
            r == self.spec_alpha(),
    {
        self.alpha.value()
    }
}

/// Multiplies the alpha values of two masks.
impl<C: Channel> core::ops::Mul for Mask<C> {
    type Output = Mask<C>;

    fn mul(self, rhs: Mask<C>) -> (r: Mask<C>) {
        let alpha = self.alpha * rhs.alpha;
        Mask { alpha }
    }
}

impl<C: Channel> vstd::std_specs::ops::MulSpecImpl for Mask<C> {
    open spec fn obeys_mul_spec() -> bool {
        true
    }

    open spec fn mul_req(self, rhs: Mask<C>) -> bool {
        true
    }

    open spec fn mul_spec(self, rhs: Mask<C>) -> Mask<C> {
        Mask::spec_new(
            C::from_value(C::mul_value(self.spec_alpha().value(), rhs.spec_alpha().value())),
        )
    }
}

impl<C: Channel> Format for Mask<C> {
    type Chan = C;

    type Alpha = Straight;

    type Gamma = Linear;

    open spec fn channels(self) -> Seq<C> {
        seq![
            C::from_value(C::max_value()),
            C::from_value(C::max_value()),
            C::from_value(C::max_value()),
            self.spec_alpha(),
        ]
    }

    open spec fn assemble(c: Seq<C>) -> Mask<C> {
        Mask::spec_new(c[3])
    }

    proof fn lemma_channels(self) {
        self.lemma_spec_new(self.spec_alpha());
    }

    proof fn lemma_zero_least(t: Mask<C>) {
        let z = Mask::<C>::spec_new(C::from_value(0));
        z.lemma_spec_new(C::from_value(0));
        C::lemma_max();
        C::lemma_from_value(0);
        C::lemma_from_value(C::max_value());
        t.spec_alpha().lemma_value();
        assert(all_within(z.channels(), t.channels()));
    }

    fn rgba(self) -> (r: [C; 4]) {
        let m = C::maximum();
        proof {
            m.lemma_value();
        }
        let r = [m, m, m, self.alpha()];
        assert(r@ =~= self.channels());
        r
    }

    fn with_rgba(rgba: [C; 4]) -> (r: Mask<C>) {
        Mask::new(rgba[3])
    }
}

} // verus!
