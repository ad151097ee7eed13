//! Alpha channels and the straight and premultiplied alpha modes.
use crate::channel::{div_sat, mul16, mul8, widen12, widen24, Channel};
use core::marker::PhantomData;
use vstd::prelude::*;

verus! {

/// Alpha channel of a pixel: how opaque it is. Zero is fully transparent,
/// full intensity fully opaque.
pub trait AChannel: Sized + Copy {
    /// Channel type of the alpha value.
    type Chan: Channel;

    /// Whether this alpha channel stores nothing and is always fully opaque.
    spec fn opaque() -> bool;

    /// The alpha value.
    spec fn alpha_value(self) -> Self::Chan;

    /// The alpha channel made from channel `c`.
    spec fn of_channel(c: Self::Chan) -> Self;

    /// An alpha channel is made from its own value; one made from `c` holds
    /// `c`, or full intensity when opaque.
    proof fn lemma_alpha(self, c: Self::Chan)
        ensures
            Self::of_channel(self.alpha_value()) == self,
            Self::of_channel(c).alpha_value() == if Self::opaque() {
                Self::Chan::from_value(Self::Chan::max_value())
            } else {
                c
            },
    ;

    /// The alpha value; full intensity for an opaque channel.
    fn value(&self) -> (r: Self::Chan)
        ensures
            r == self.alpha_value(),
    ;

    /// Makes an alpha channel from `c`: an opaque one drops it.
    fn from_channel(c: Self::Chan) -> (r: Self)
        ensures
            r == Self::of_channel(c),
    ;
}

/// Alpha channel of fully opaque pixels: it stores nothing.
#[derive(Copy, Debug, Default, PartialEq, Eq)]
pub struct Opaque<C> {
    value: PhantomData<C>,
}

/// Alpha channel of translucent or transparent pixels.
#[derive(Clone, Copy, Debug, Default, PartialEq, Eq)]
pub struct Translucent<C: Channel> {
    value: C,
}

impl<C: Copy> Clone for Opaque<C> {
    fn clone(&self) -> (r: Opaque<C>)
        ensures
            r == *self,
    {
        *self
    }
}

impl<C: Channel> Opaque<C> {
    /// The opaque alpha channel.
    pub closed spec fn spec_new() -> Opaque<C> {
        Opaque { value: PhantomData }
    }

    /// There is a single opaque alpha channel.
    pub proof fn lemma_unique(self)
        ensures
            self == Opaque::<C>::spec_new(),
    {
    }

    /// Creates the opaque alpha channel.
    pub fn new() -> (r: Opaque<C>)
        ensures
            r == Opaque::<C>::spec_new(),
    {
        Opaque { value: PhantomData }
    }
}

impl<C: Channel> Translucent<C> {
    /// The alpha channel with alpha value `value`.
    pub closed spec fn spec_new(value: C) -> Translucent<C> {
        Translucent { value }
    }

    /// The stored alpha value.
    pub closed spec fn stored(self) -> C {
        self.value
    }

    /// `spec_new` and `stored` are inverse.
    pub proof fn lemma_stored(self, value: C)
        ensures
            Translucent::spec_new(value).stored() == value,
            Translucent::spec_new(self.stored()) == self,
    {
    }

    /// Creates a translucent alpha channel with alpha value `value`.
    pub fn new(value: C) -> (r: Translucent<C>)
        ensures
            r == Translucent::spec_new(value),
            r.stored() == value,
    {
        Translucent { value }
    }
}

impl<C: Channel> AChannel for Opaque<C> {
    type Chan = C;

    open spec fn opaque() -> bool {
        true
    }

    open spec fn alpha_value(self) -> C {
        C::from_value(C::max_value())
    }

    open spec fn of_channel(c: C) -> Opaque<C> {
        Opaque::spec_new()
    }

    proof fn lemma_alpha(self, c: C) {
        self.lemma_unique();
    }

    fn value(&self) -> (r: C) {
        let r = C::maximum();
        proof {
            r.lemma_value();
        }
        r
    }

    fn from_channel(c: C) -> (r: Opaque<C>) {
        Opaque::new()
    }
}

impl<C: Channel> AChannel for Translucent<C> {
    type Chan = C;

    open spec fn opaque() -> bool {
        false
    }

    open spec fn alpha_value(self) -> C {
        self.stored()
    }

    open spec fn of_channel(c: C) -> Translucent<C> {
        Translucent::spec_new(c)
    }

    proof fn lemma_alpha(self, c: C) {
        self.lemma_stored(c);
    }

    fn value(&self) -> (r: C) {
        let r = self.value;
        assert(self.alpha_value() == self.stored());
        r
    }

    fn from_channel(c: C) -> (r: Translucent<C>) {
        Translucent::new(c)
    }
}

/// Two opaque channels make an opaque one.
impl<C: Channel> core::ops::Mul for Opaque<C> {
    type Output = Opaque<C>;

    fn mul(self, rhs: Opaque<C>) -> (r: Opaque<C>) {
        self
    }
}

impl<C: Channel> vstd::std_specs::ops::MulSpecImpl for Opaque<C> {
    open spec fn obeys_mul_spec() -> bool {
        true
    }

    open spec fn mul_req(self, rhs: Opaque<C>) -> bool {
        true
    }

    open spec fn mul_spec(self, rhs: Opaque<C>) -> Opaque<C> {
        self
    }
}

/// Two translucent channels multiply their alpha values.
impl<C: Channel> core::ops::Mul for Translucent<C> {
    type Output = Translucent<C>;

    fn mul(self, rhs: Translucent<C>) -> (r: Translucent<C>) {
        let value = self.value.product(rhs.value);
        proof {
            value.lemma_value();
        }
        Translucent { value }
    }
}

impl<C: Channel> vstd::std_specs::ops::MulSpecImpl for Translucent<C> {
    open spec fn obeys_mul_spec() -> bool {
        true
    }

    open spec fn mul_req(self, rhs: Translucent<C>) -> bool {
        true
    }

    open spec fn mul_spec(self, rhs: Translucent<C>) -> Translucent<C> {
        Translucent::spec_new(
            C::from_value(C::mul_value(self.stored().value(), rhs.stored().value())),
        )
    }
}

/// Color channel `c` stored under alpha `a`: multiplied by it when
/// premultiplied, unchanged when straight.
pub open spec fn alpha_encode<C: Channel>(premultiplied: bool, c: C, a: C) -> C {
    if premultiplied {
        C::from_value(C::mul_value(c.value(), a.value()))
    } else {
        c
    }
}

/// Color channel `c`, stored under alpha `a`, taken out of it: divided by it
/// when premultiplied (zero for zero alpha), unchanged when straight.
pub open spec fn alpha_decode<C: Channel>(premultiplied: bool, c: C, a: C) -> C {
    if premultiplied {
        C::from_value(div_sat(c.value(), a.value(), C::max_value()))
    } else {
        c
    }
}

/// How color channels relate to alpha: straight or premultiplied.
pub trait Mode: Sized + Copy {
    /// Whether color channels are stored premultiplied by alpha.
    spec fn premultiplied() -> bool;

    /// Whether color channels are stored premultiplied by alpha.
    fn is_premultiplied() -> (r: bool)
        ensures
            r == Self::premultiplied(),
    ;

    /// Stores color channel `c` under alpha `a`.
    fn encode<C: Channel>(c: C, a: C) -> (r: C)
        ensures
            r == alpha_encode(Self::premultiplied(), c, a),
    ;

    /// Takes color channel `c`, stored under alpha `a`, out of it.
    fn decode<C: Channel>(c: C, a: C) -> (r: C)
        ensures
            r == alpha_decode(Self::premultiplied(), c, a),
    ;
}

/// Color channels are stored as they are, not premultiplied by alpha.
#[derive(Clone, Copy, Debug, Default, PartialEq, Eq)]
pub struct Straight;

/// Color channels are stored premultiplied, or associated, with alpha.
#[derive(Clone, Copy, Debug, Default, PartialEq, Eq)]
pub struct Premultiplied;

impl Mode for Straight {
    open spec fn premultiplied() -> bool {
        false
    }

    fn is_premultiplied() -> (r: bool) {
        false
    }

    fn encode<C: Channel>(c: C, a: C) -> (r: C) {
        c
    }

    fn decode<C: Channel>(c: C, a: C) -> (r: C) {
        c
    }
}

impl Mode for Premultiplied {
    open spec fn premultiplied() -> bool {
        true
    }

    fn is_premultiplied() -> (r: bool) {
        true
    }

    fn encode<C: Channel>(c: C, a: C) -> (r: C) {
        let r = c.product(a);
        proof {
            r.lemma_value();
        }
        r
    }

    fn decode<C: Channel>(c: C, a: C) -> (r: C) {
        let r = c.quotient(a);
        proof {
            r.lemma_value();
        }
        r
    }
}

proof fn lemma_round_trip_bounds(c: int, a: int, wc: int, wa: int, s: int, k: int, m: int, q: int)
    requires
        0 <= c <= s - 1,
        1 <= a <= s - 1,
        s == 256 || s == 65536,
        k * k == s,
        k > 0,
        k * c <= wc,
        k * wc <= (s + 1) * c,
        k * a <= wa,
        k * wa <= (s + 1) * a,
        m == (wc * wa) / (s * s),
        q == (m * s) / a,
    ensures
        q <= c + 1,
        (c - q) * a < s + a,
{
    assert(wc >= 0 && wa >= 0) by (nonlinear_arith)
        requires
            k * c <= wc,
            k * a <= wa,
            k > 0,
            c >= 0,
            a >= 0,
    ;
    assert(s * s * m <= wc * wa < s * s * (m + 1)) by (nonlinear_arith)
        requires
            m == (wc * wa) / (s * s),
            s > 0,
    ;
    assert(q * a <= m * s < (q + 1) * a) by (nonlinear_arith)
        requires
            q == (m * s) / a,
            a > 0,
    ;
    assert((k * wc) * (k * wa) <= ((s + 1) * c) * ((s + 1) * a)) by (nonlinear_arith)
        requires
            0 <= k * wc <= (s + 1) * c,
            0 <= k * wa <= (s + 1) * a,
    ;
    assert(s * (wc * wa) == (k * wc) * (k * wa)) by (nonlinear_arith)
        requires
            k * k == s,
    ;
    assert(s * s * (q * a) <= (s + 1) * (s + 1) * (c * a)) by (nonlinear_arith)
        requires
            q * a <= m * s,
            s * s * m <= wc * wa,
            s * (wc * wa) <= ((s + 1) * c) * ((s + 1) * a),
            s > 0,
    ;
    assert(s * s * q <= (s + 1) * (s + 1) * c) by (nonlinear_arith)
        requires
            s * s * (q * a) <= (s + 1) * (s + 1) * (c * a),
            a > 0,
    ;
    assert(q <= c + 1) by (nonlinear_arith)
        requires
            s * s * q <= (s + 1) * (s + 1) * c,
            0 <= c <= s - 1,
            s > 0,
    ;
    assert((k * c) * (k * a) <= wc * wa) by (nonlinear_arith)
        requires
            0 <= k * c <= wc,
            0 <= k * a <= wa,
    ;
    assert(s * (c * a) == (k * c) * (k * a)) by (nonlinear_arith)
        requires
            k * k == s,
    ;
    assert(s * (c * a) < s * s * (m + 1));
    assert(c * a < s * (m + 1)) by (nonlinear_arith)
        requires
            s * (c * a) < s * s * (m + 1),
            s > 0,
    ;
    assert((c - q) * a < s + a) by (nonlinear_arith)
        requires
            m * s < (q + 1) * a,
            c * a < s * (m + 1),
    ;
}

/// Premultiplying color `c` by nonzero alpha `a` and dividing it out again
/// gives `c` back up to rounding: never more than one step above it, and
/// below it by less than one step plus the channel's range over `a`.
pub proof fn lemma_premultiplied_round_trip<C: Channel>(c: C, a: C)
    requires
        a.value() > 0,
    ensures
        alpha_decode(true, alpha_encode(true, c, a), a).value() <= c.value() + 1,
        (c.value() - alpha_decode(true, alpha_encode(true, c, a), a).value()) * a.value()
            < C::max_value() + 1 + a.value(),
{
    C::lemma_max();
    c.lemma_value();
    a.lemma_value();
    let cv = c.value();
    let av = a.value();
    let m = C::mul_value(cv, av);
    C::lemma_from_value(m);
    let s = C::max_value() + 1;
    let q = (m * s) / av;
    if s == 256 {
        assert(mul8(cv, av) == m);
        lemma_round_trip_bounds(cv, av, widen12(cv), widen12(av), 256, 16, m, q);
    } else {
        assert(mul16(cv, av) == m);
        lemma_round_trip_bounds(cv, av, widen24(cv), widen24(av), 65536, 256, m, q);
    }
    let d = div_sat(m, av, C::max_value());
    C::lemma_from_value(d);
    if q > C::max_value() {
        assert(d == C::max_value());
        assert((cv - d) * av <= 0) by (nonlinear_arith)
            requires
                cv - d <= 0,
                av > 0,
        ;
    } else {
        assert(d == q);
    }
}

} // verus!
