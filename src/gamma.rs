//! Gamma modes: how stored channel values relate to linear light.
use crate::channel::{Ch8, Channel};
use crate::srgb::{lookup8, SRGB_DECODE8, SRGB_ENCODE8};
use vstd::prelude::*;

verus! {

/// Color channel `c` in linear light: through the sRGB curve when
/// sRGB-encoded, unchanged when linear.
pub open spec fn gamma_to_linear<C: Channel>(srgb: bool, c: C) -> C {
    if srgb {
        C::from_value(C::srgb_decode_value(c.value()))
    } else {
        c
    }
}

/// Linear-light color channel `c` encoded for storage: through the inverse
/// sRGB curve when sRGB-encoded, unchanged when linear.
pub open spec fn gamma_from_linear<C: Channel>(srgb: bool, c: C) -> C {
    if srgb {
        C::from_value(C::srgb_encode_value(c.value()))
    } else {
        c
    }
}

/// How stored color channels relate to linear light. Alpha is never
/// gamma-encoded.
pub trait Mode: Sized + Copy {
    /// Whether channels are stored with the sRGB curve.
    spec fn srgb() -> bool;

    /// Whether channels are stored with the sRGB curve.
    fn is_srgb() -> (r: bool)
        ensures
            r == Self::srgb(),
    ;

    /// Moves a stored color channel into linear light.
    fn to_linear<C: Channel>(c: C) -> (r: C)
        ensures
            r == gamma_to_linear(Self::srgb(), c),
    ;

    /// Encodes a linear-light color channel for storage.
    fn from_linear<C: Channel>(c: C) -> (r: C)
        ensures
            r == gamma_from_linear(Self::srgb(), c),
    ;
}

/// Channels are stored in linear light.
#[derive(Clone, Copy, Debug, Default, PartialEq, Eq)]
pub struct Linear;

/// Channels are stored with the sRGB transfer curve.
#[derive(Clone, Copy, Debug, Default, PartialEq, Eq)]
pub struct Srgb;

impl Mode for Linear {
    open spec fn srgb() -> bool {
        false
    }

    fn is_srgb() -> (r: bool) {
        false
    }

    fn to_linear<C: Channel>(c: C) -> (r: C) {
        c
    }

    fn from_linear<C: Channel>(c: C) -> (r: C) {
        c
    }
}

impl Mode for Srgb {
    open spec fn srgb() -> bool {
        true
    }

    fn is_srgb() -> (r: bool) {
        true
    }

    fn to_linear<C: Channel>(c: C) -> (r: C) {
        let r = c.decode_srgb();
        proof {
            r.lemma_value();
        }
        r
    }

    fn from_linear<C: Channel>(c: C) -> (r: C) {
        let r = c.encode_srgb();
        proof {
            r.lemma_value();
        }
        r
    }
}

/// The dark 8-bit sRGB codes that share their linear 8-bit code with a
/// neighbour more than one step away, so that no encoding can bring them back.
pub open spec fn srgb8_lossy(v: int) -> bool {
    2 <= v <= 11 || 15 <= v <= 20 || 24 <= v <= 26 || 30 <= v <= 32 || v == 36 || v == 40 || v
        == 44 || v == 48
}

/// Moving an 8-bit sRGB-encoded channel into linear light and back gives it
/// back within one step, but for the dark codes whose linear value is shared;
/// moving a linear channel to sRGB and back does so for every code.
pub proof fn lemma_srgb8_round_trip(c: Ch8)
    ensures
        !srgb8_lossy(c.value()) ==> {
            let back = gamma_from_linear(true, gamma_to_linear(true, c)).value();
            c.value() - 1 <= back <= c.value() + 1
        },
        c.value() - 1 <= gamma_to_linear(true, gamma_from_linear(true, c)).value() <= c.value()
            + 1,
{
    c.lemma_value();
    let v = c.value();
    Ch8::lemma_from_value(lookup8(SRGB_DECODE8, v));
    Ch8::lemma_from_value(lookup8(SRGB_ENCODE8, v));
    Ch8::lemma_from_value(lookup8(SRGB_ENCODE8, lookup8(SRGB_DECODE8, v)));
    Ch8::lemma_from_value(lookup8(SRGB_DECODE8, lookup8(SRGB_ENCODE8, v)));
    assert(forall|i: int|
        0 <= i < 256 && !srgb8_lossy(i) ==> i - 1 <= #[trigger] lookup8(
            SRGB_ENCODE8,
            lookup8(SRGB_DECODE8, i),
        ) <= i + 1);
    assert(forall|i: int|
        0 <= i < 256 ==> i - 1 <= #[trigger] lookup8(SRGB_DECODE8, lookup8(SRGB_ENCODE8, i)) <= i
            + 1);
}

} // verus!
