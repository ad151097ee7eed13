//! Color channels: a component stored at a given bit depth, whose range
//! stands for the real interval from zero to one.
use crate::srgb::{
    interpolate16, lookup8, nondecreasing16, read16, read8, SRGB_DECODE16, SRGB_DECODE8,
    SRGB_ENCODE16, SRGB_ENCODE8,
};
use vstd::prelude::*;

verus! {

/// Value of an 8-bit pattern replicated into a 12-bit fixed-point operand.
pub open spec fn widen12(v: int) -> int {
    16 * v + v / 16
}

/// Value of a 16-bit pattern replicated into a 24-bit fixed-point operand.
pub open spec fn widen24(v: int) -> int {
    256 * v + v / 256
}

/// Product of two 8-bit channel values, each read as a fraction of 255.
pub open spec fn mul8(a: int, b: int) -> int {
    (widen12(a) * widen12(b)) / 0x1_0000
}

/// Product of two 16-bit channel values, each read as a fraction of 65535.
pub open spec fn mul16(a: int, b: int) -> int {
    (widen24(a) * widen24(b)) / 0x1_0000_0000
}

/// Quotient of two channel values with `max` as the largest one: saturates at
/// `max`, and is zero when the divisor is zero.
pub open spec fn div_sat(a: int, b: int, max: int) -> int {
    if b == 0 {
        0
    } else if (a * (max + 1)) / b > max {
        max
    } else {
        (a * (max + 1)) / b
    }
}

/// Channel value `v` moved from a channel with maximum `from` to one with
/// maximum `to`: widening replicates the byte, narrowing keeps the high byte.
pub open spec fn rescale(v: int, from: int, to: int) -> int {
    if from == to {
        v
    } else if from < to {
        v * 257
    } else {
        v / 256
    }
}

/// A color component at some bit depth. Multiplication and division treat the
/// stored integer as a fraction of the largest one.
pub trait Channel: Sized + Copy {
    /// The stored integer.
    spec fn value(self) -> int;

    /// The stored integer of full intensity.
    spec fn max_value() -> int;

    /// The channel that stores `v`.
    spec fn from_value(v: int) -> Self;

    /// Product of two stored integers.
    spec fn mul_value(a: int, b: int) -> int;

    /// sRGB-encoded stored integer `v` in linear light.
    spec fn srgb_decode_value(v: int) -> int;

    /// Linear-light stored integer `v` encoded with the sRGB curve.
    spec fn srgb_encode_value(v: int) -> int;

    /// A channel's stored integer lies in its range and determines it.
    proof fn lemma_value(self)
        ensures
            0 <= self.value() <= Self::max_value(),
            Self::from_value(self.value()) == self,
    ;

    /// Every integer of the range is stored by some channel.
    proof fn lemma_from_value(v: int)
        requires
            0 <= v <= Self::max_value(),
        ensures
            Self::from_value(v).value() == v,
    ;

    /// The two bit depths, their products, and the ranges of the product and
    /// of the sRGB curves.
    proof fn lemma_max()
        ensures
            Self::max_value() == 255 || Self::max_value() == 65535,
            forall|a: int, b: int|
                #[trigger] Self::mul_value(a, b) == if Self::max_value() == 255 {
                    mul8(a, b)
                } else {
                    mul16(a, b)
                },
            forall|a: int, b: int|
                0 <= a <= Self::max_value() && 0 <= b <= Self::max_value() ==> 0
                    <= #[trigger] Self::mul_value(a, b) <= Self::max_value(),
            forall|v: int|
                0 <= v <= Self::max_value() ==> 0 <= #[trigger] Self::srgb_decode_value(v)
                    <= Self::max_value(),
            forall|v: int|
                0 <= v <= Self::max_value() ==> 0 <= #[trigger] Self::srgb_encode_value(v)
                    <= Self::max_value(),
    ;

    /// Zero intensity.
    fn minimum() -> (r: Self)
        ensures
            r.value() == 0,
    ;

    /// Full intensity.
    fn maximum() -> (r: Self)
        ensures
            r.value() == Self::max_value(),
    ;

    /// Sum, saturating at full intensity.
    fn saturating_add(self, rhs: Self) -> (r: Self)
        ensures
            r.value() == if self.value() + rhs.value() > Self::max_value() {
                Self::max_value()
            } else {
                self.value() + rhs.value()
            },
    ;

    /// Difference, saturating at zero.
    fn saturating_sub(self, rhs: Self) -> (r: Self)
        ensures
            r.value() == if self.value() < rhs.value() {
                0
            } else {
                self.value() - rhs.value()
            },
    ;

    /// Fixed-point product of two fractions.
    fn product(self, rhs: Self) -> (r: Self)
        ensures
            r.value() == Self::mul_value(self.value(), rhs.value()),
    ;

    /// Fixed-point quotient of two fractions, saturating at full intensity;
    /// zero for a zero divisor.
    fn quotient(self, rhs: Self) -> (r: Self)
        ensures
            r.value() == div_sat(self.value(), rhs.value(), Self::max_value()),
    ;

    /// Whether `self` is at most `rhs`.
    fn at_most(self, rhs: Self) -> (r: bool)
        ensures
            r == (self.value() <= rhs.value()),
    ;

    /// Converts an 8-bit channel to this bit depth.
    fn from_ch8(c: Ch8) -> (r: Self)
        ensures
            r.value() == rescale(c.val(), 255, Self::max_value()),
    ;

    /// Converts a 16-bit channel to this bit depth.
    fn from_ch16(c: Ch16) -> (r: Self)
        ensures
            r.value() == rescale(c.val(), 65535, Self::max_value()),
    ;

    /// Converts this channel to a 16-bit one.
    fn to_ch16(self) -> (r: Ch16)
        ensures
            r.val() == rescale(self.value(), Self::max_value(), 65535),
    ;

    /// Moves an sRGB-encoded value into linear light.
    fn decode_srgb(self) -> (r: Self)
        ensures
            r.value() == Self::srgb_decode_value(self.value()),
    ;

    /// Encodes a linear-light value with the sRGB curve.
    fn encode_srgb(self) -> (r: Self)
        ensures
            r.value() == Self::srgb_encode_value(self.value()),
    ;
}

/// 8-bit color channel: a `u8` read as a fraction of 255.
#[derive(Clone, Copy, Debug, Default, PartialEq, Eq, PartialOrd, Ord, Hash)]
pub struct Ch8(u8);

/// 16-bit color channel: a `u16` read as a fraction of 65535.
#[derive(Clone, Copy, Debug, Default, PartialEq, Eq, PartialOrd, Ord, Hash)]
pub struct Ch16(u16);

proof fn lemma_widen12(a: u8)
    ensures
        ((a as u32) << 4u32) | ((a as u32) >> 4u32) == widen12(a as int),
        widen12(a as int) <= 4095,
{
    assert(((a as u32) << 4u32) | ((a as u32) >> 4u32) == (a as u32) * 16 + (a as u32) / 16)
        by (bit_vector);
}

proof fn lemma_widen24(a: u16)
    ensures
        ((a as u64) << 8u64) | ((a as u64) >> 8u64) == widen24(a as int),
        widen24(a as int) <= 0xff_ffff,
{
    assert(((a as u64) << 8u64) | ((a as u64) >> 8u64) == (a as u64) * 256 + (a as u64) / 256)
        by (bit_vector);
}

proof fn lemma_mul_bounds(a: int, b: int, m: int)
    requires
        0 <= a <= m,
        0 <= b <= m,
    ensures
        0 <= a * b <= m * m,
{
    assert(0 <= a * b <= m * m) by (nonlinear_arith)
        requires
            0 <= a <= m,
            0 <= b <= m,
    ;
}

proof fn lemma_mul8_range(a: int, b: int)
    requires
        0 <= a <= 255,
        0 <= b <= 255,
    ensures
        0 <= mul8(a, b) <= 255,
{
    lemma_mul_bounds(widen12(a), widen12(b), 4095);
}

proof fn lemma_mul16_range(a: int, b: int)
    requires
        0 <= a <= 65535,
        0 <= b <= 65535,
    ensures
        0 <= mul16(a, b) <= 65535,
{
    lemma_mul_bounds(widen24(a), widen24(b), 0xff_ffff);
}

impl Ch8 {
    /// The channel that stores `v`, taken modulo the width.
    pub closed spec fn of(v: int) -> Ch8 {
        Ch8(v as u8)
    }

    /// The stored byte.
    pub closed spec fn val(self) -> int {
        self.0 as int
    }

    /// `of` and `val` are inverse on the stored range.
    pub proof fn lemma_of(self)
        ensures
            0 <= self.val() <= 255,
            Ch8::of(self.val()) == self,
    {
    }

    /// Every integer of the range is stored by `of` of it.
    pub proof fn lemma_of_value(v: int)
        requires
            0 <= v <= 255,
        ensures
            Ch8::of(v).val() == v,
    {
    }

    /// Creates an 8-bit channel storing `value`.
    pub fn new(value: u8) -> (r: Ch8)
        ensures
            r.value() == value,
    {
        Ch8(value)
    }

    /// The stored byte.
    pub fn get(self) -> (r: u8)
        ensures
            r == self.value(),
    {
        self.0
    }
}

impl Ch16 {
    /// The channel that stores `v`, taken modulo the width.
    pub closed spec fn of(v: int) -> Ch16 {
        Ch16(v as u16)
    }

    /// The stored 16-bit integer.
    pub closed spec fn val(self) -> int {
        self.0 as int
    }

    /// `of` and `val` are inverse on the stored range.
    pub proof fn lemma_of(self)
        ensures
            0 <= self.val() <= 65535,
            Ch16::of(self.val()) == self,
    {
    }

    /// Every integer of the range is stored by `of` of it.
    pub proof fn lemma_of_value(v: int)
        requires
            0 <= v <= 65535,
        ensures
            Ch16::of(v).val() == v,
    {
    }

    /// Creates a 16-bit channel storing `value`.
    pub fn new(value: u16) -> (r: Ch16)
        ensures
            r.value() == value,
    {
        Ch16(value)
    }

    /// The stored 16-bit integer.
    pub fn get(self) -> (r: u16)
        ensures
            r == self.value(),
    {
        self.0
    }
}

impl Channel for Ch8 {
    open spec fn value(self) -> int {
        self.val()
    }

    open spec fn max_value() -> int {
        255
    }

    open spec fn from_value(v: int) -> Ch8 {
        Ch8::of(v)
    }

    open spec fn mul_value(a: int, b: int) -> int {
        mul8(a, b)
    }

    open spec fn srgb_decode_value(v: int) -> int {
        lookup8(SRGB_DECODE8, v)
    }

    open spec fn srgb_encode_value(v: int) -> int {
        lookup8(SRGB_ENCODE8, v)
    }

    proof fn lemma_value(self) {
        self.lemma_of();
    }

    proof fn lemma_from_value(v: int) {
        Self::lemma_of_value(v);
    }

    proof fn lemma_max() {
        assert forall|a: int, b: int| 0 <= a <= 255 && 0 <= b <= 255 implies 0 <= #[trigger] mul8(
            a,
            b,
        ) <= 255 by {
            lemma_mul8_range(a, b);
        }
    }

    fn minimum() -> (r: Ch8) {
        Ch8(0)
    }

    fn maximum() -> (r: Ch8) {
        Ch8(0xff)
    }

    fn saturating_add(self, rhs: Ch8) -> (r: Ch8) {
        Ch8(self.0.saturating_add(rhs.0))
    }

    fn saturating_sub(self, rhs: Ch8) -> (r: Ch8) {
        Ch8(self.0.saturating_sub(rhs.0))
    }

    fn product(self, rhs: Ch8) -> (r: Ch8) {
        let l: u32 = self.0 as u32;
        let l: u32 = (l << 4u32) | (l >> 4u32);
        let r: u32 = rhs.0 as u32;
        let r: u32 = (r << 4u32) | (r >> 4u32);
        proof {
            lemma_widen12(self.0);
            lemma_widen12(rhs.0);
            lemma_mul_bounds(l as int, r as int, 4095);
        }
        let p: u32 = l * r;
        assert(p >> 16u32 == p / 0x1_0000) by (bit_vector);
        Ch8((p >> 16u32) as u8)
    }

    fn quotient(self, rhs: Ch8) -> (r: Ch8) {
        if rhs.0 > 0 {
            let a: u32 = self.0 as u32;
            assert((a << 8u32) == a * 256) by (bit_vector)
                requires
                    a < 256,
            ;
            let ss: u32 = a << 8u32;
            let rr: u32 = rhs.0 as u32;
            let q: u32 = ss / rr;
            if q > 255 {
                Ch8(255)
            } else {
                Ch8(q as u8)
            }
        } else {
            Ch8(0)
        }
    }

    fn at_most(self, rhs: Ch8) -> (r: bool) {
        self.0 <= rhs.0
    }

    fn from_ch8(c: Ch8) -> (r: Ch8) {
        c
    }

    fn from_ch16(c: Ch16) -> (r: Ch8) {
        Ch8::from(c)
    }

    fn to_ch16(self) -> (r: Ch16) {
        Ch16::from(self)
    }

    fn decode_srgb(self) -> (r: Ch8) {
        Ch8(read8(&SRGB_DECODE8, self.0))
    }

    fn encode_srgb(self) -> (r: Ch8) {
        Ch8(read8(&SRGB_ENCODE8, self.0))
    }
}

impl Channel for Ch16 {
    open spec fn value(self) -> int {
        self.val()
    }

    open spec fn max_value() -> int {
        65535
    }

    open spec fn from_value(v: int) -> Ch16 {
        Ch16::of(v)
    }

    open spec fn mul_value(a: int, b: int) -> int {
        mul16(a, b)
    }

    open spec fn srgb_decode_value(v: int) -> int {
        interpolate16(SRGB_DECODE16, v)
    }

    open spec fn srgb_encode_value(v: int) -> int {
        interpolate16(SRGB_ENCODE16, v)
    }

    proof fn lemma_value(self) {
        self.lemma_of();
    }

    proof fn lemma_from_value(v: int) {
        Self::lemma_of_value(v);
    }

    proof fn lemma_max() {
        assert forall|a: int, b: int| 0 <= a <= 65535 && 0 <= b <= 65535 implies 0
            <= #[trigger] mul16(a, b) <= 65535 by {
            lemma_mul16_range(a, b);
        }
        lemma_srgb16_tables();
        assert forall|v: int| 0 <= v <= 65535 implies 0 <= #[trigger] interpolate16(
            SRGB_DECODE16,
            v,
        ) <= 65535 by {
            lemma_interpolate16_range(SRGB_DECODE16, v);
        }
        assert forall|v: int| 0 <= v <= 65535 implies 0 <= #[trigger] interpolate16(
            SRGB_ENCODE16,
            v,
        ) <= 65535 by {
            lemma_interpolate16_range(SRGB_ENCODE16, v);
        }
    }

    fn minimum() -> (r: Ch16) {
        Ch16(0)
    }

    fn maximum() -> (r: Ch16) {
        Ch16(0xffff)
    }

    fn saturating_add(self, rhs: Ch16) -> (r: Ch16) {
        Ch16(self.0.saturating_add(rhs.0))
    }

    fn saturating_sub(self, rhs: Ch16) -> (r: Ch16) {
        Ch16(self.0.saturating_sub(rhs.0))
    }

    fn product(self, rhs: Ch16) -> (r: Ch16) {
        let l: u64 = self.0 as u64;
        let l: u64 = (l << 8u64) | (l >> 8u64);
        let r: u64 = rhs.0 as u64;
        let r: u64 = (r << 8u64) | (r >> 8u64);
        proof {
            lemma_widen24(self.0);
            lemma_widen24(rhs.0);
            lemma_mul_bounds(l as int, r as int, 0xff_ffff);
        }
        let p: u64 = l * r;
        assert(p >> 32u64 == p / 0x1_0000_0000) by (bit_vector);
        proof {
            lemma_mul16_range(self.0 as int, rhs.0 as int);
        }
        Ch16((p >> 32u64) as u16)
    }

    fn quotient(self, rhs: Ch16) -> (r: Ch16) {
        if rhs.0 > 0 {
            let a: u64 = self.0 as u64;
            assert((a << 16u64) == a * 65536) by (bit_vector)
                requires
                    a < 65536,
            ;
            let ss: u64 = a << 16u64;
            let rr: u64 = rhs.0 as u64;
            let q: u64 = ss / rr;
            if q > 65535 {
                Ch16(65535)
            } else {
                Ch16(q as u16)
            }
        } else {
            Ch16(0)
        }
    }

    fn at_most(self, rhs: Ch16) -> (r: bool) {
        self.0 <= rhs.0
    }

    fn from_ch8(c: Ch8) -> (r: Ch16) {
        Ch16::from(c)
    }

    fn from_ch16(c: Ch16) -> (r: Ch16) {
        c
    }

    fn to_ch16(self) -> (r: Ch16) {
        self
    }

    fn decode_srgb(self) -> (r: Ch16) {
        proof {
            lemma_srgb16_tables();
        }
        Ch16(read16(&SRGB_DECODE16, self.0))
    }

    fn encode_srgb(self) -> (r: Ch16) {
        proof {
            lemma_srgb16_tables();
        }
        Ch16(read16(&SRGB_ENCODE16, self.0))
    }
}

proof fn lemma_srgb16_tables()
    ensures
        nondecreasing16(SRGB_DECODE16),
        nondecreasing16(SRGB_ENCODE16),
        SRGB_DECODE16@.len() == 256,
        SRGB_ENCODE16@.len() == 256,
{
}

proof fn lemma_interpolate16_range(table: [u16; 256], v: int)
    requires
        nondecreasing16(table),
        0 <= v <= 65535,
    ensures
        0 <= interpolate16(table, v) <= 65535,
{
    let k = v / 257;
    let t = v % 257;
    if k < 255 {
        let lo = table@[k] as int;
        let hi = table@[k + 1] as int;
        assert(lo <= hi);
        assert(0 <= (hi - lo) * t <= (hi - lo) * 257) by (nonlinear_arith)
            requires
                lo <= hi,
                0 <= t < 257,
        ;
        assert(((hi - lo) * t) / 257 <= hi - lo) by (nonlinear_arith)
            requires
                0 <= (hi - lo) * t <= (hi - lo) * 257,
        ;
    }
}

/// Converts channel `c` to the bit depth of `D`.
pub fn rescale_channel<S: Channel, D: Channel>(c: S) -> (r: D)
    ensures
        r.value() == rescale(c.value(), S::max_value(), D::max_value()),
{
    proof {
        S::lemma_max();
        D::lemma_max();
        c.lemma_value();
    }
    let w = c.to_ch16();
    let r = D::from_ch16(w);
    proof {
        if S::max_value() == 255 && D::max_value() == 255 {
            assert((c.value() * 257) / 256 == c.value());
        }
    }
    r
}

/// Widening replicates the byte into both halves, so zero and full intensity
/// map exactly.
impl From<Ch8> for Ch16 {
    fn from(c: Ch8) -> (r: Ch16) {
        let v: u16 = c.0 as u16;
        assert(((v << 8u16) | v) == v * 257) by (bit_vector)
            requires
                v < 256,
        ;
        Ch16((v << 8u16) | v)
    }
}

impl vstd::std_specs::convert::FromSpecImpl<Ch8> for Ch16 {
    open spec fn obeys_from_spec() -> bool {
        true
    }

    open spec fn from_spec(c: Ch8) -> Ch16 {
        Ch16::of(c.val() * 257)
    }
}

/// Narrowing keeps the high byte: it truncates, it does not round.
impl From<Ch16> for Ch8 {
    fn from(c: Ch16) -> (r: Ch8) {
        let v: u16 = c.0;
        assert(v >> 8u16 == v / 256) by (bit_vector);
        Ch8((v >> 8u16) as u8)
    }
}

impl vstd::std_specs::convert::FromSpecImpl<Ch16> for Ch8 {
    open spec fn obeys_from_spec() -> bool {
        true
    }

    open spec fn from_spec(c: Ch16) -> Ch8 {
        Ch8::of(c.val() / 256)
    }
}

impl From<u8> for Ch8 {
    fn from(v: u8) -> (r: Ch8) {
        Ch8(v)
    }
}

impl vstd::std_specs::convert::FromSpecImpl<u8> for Ch8 {
    open spec fn obeys_from_spec() -> bool {
        true
    }

    open spec fn from_spec(v: u8) -> Ch8 {
        Ch8::of(v as int)
    }
}

impl From<u16> for Ch16 {
    fn from(v: u16) -> (r: Ch16) {
        Ch16(v)
    }
}

impl vstd::std_specs::convert::FromSpecImpl<u16> for Ch16 {
    open spec fn obeys_from_spec() -> bool {
        true
    }

    open spec fn from_spec(v: u16) -> Ch16 {
        Ch16::of(v as int)
    }
}

/// Sum, saturating at full intensity.
impl core::ops::Add for Ch8 {
    type Output = Ch8;

    fn add(self, rhs: Ch8) -> (r: Ch8) {
        let r = self.saturating_add(rhs);
        proof {
            r.lemma_of();
        }
        r
    }
}

impl vstd::std_specs::ops::AddSpecImpl for Ch8 {
    open spec fn obeys_add_spec() -> bool {
        true
    }

    open spec fn add_req(self, rhs: Ch8) -> bool {
        true
    }

    open spec fn add_spec(self, rhs: Ch8) -> Ch8 {
        Ch8::of(if self.val() + rhs.val() > Ch8::max_value() { Ch8::max_value() } else { self.val() + rhs.val() })
    }
}

/// Difference, saturating at zero.
impl core::ops::Sub for Ch8 {
    type Output = Ch8;

    fn sub(self, rhs: Ch8) -> (r: Ch8) {
        let r = self.saturating_sub(rhs);
        proof {
            r.lemma_of();
        }
        r
    }
}

impl vstd::std_specs::ops::SubSpecImpl for Ch8 {
    open spec fn obeys_sub_spec() -> bool {
        true
    }

    open spec fn sub_req(self, rhs: Ch8) -> bool {
        true
    }

    open spec fn sub_spec(self, rhs: Ch8) -> Ch8 {
        Ch8::of(if self.val() < rhs.val() { 0 } else { self.val() - rhs.val() })
    }
}

/// Fixed-point product: full intensity times full intensity is full intensity.
impl core::ops::Mul for Ch8 {
    type Output = Ch8;

    fn mul(self, rhs: Ch8) -> (r: Ch8) {
        let r = self.product(rhs);
        proof {
            r.lemma_of();
        }
        r
    }
}

impl vstd::std_specs::ops::MulSpecImpl for Ch8 {
    open spec fn obeys_mul_spec() -> bool {
        true
    }

    open spec fn mul_req(self, rhs: Ch8) -> bool {
        true
    }

    open spec fn mul_spec(self, rhs: Ch8) -> Ch8 {
        Ch8::of(mul8(self.val(), rhs.val()))
    }
}

/// Fixed-point quotient, saturating at full intensity; zero for a zero divisor.
impl core::ops::Div for Ch8 {
    type Output = Ch8;

    fn div(self, rhs: Ch8) -> (r: Ch8) {
        let r = self.quotient(rhs);
        proof {
            r.lemma_of();
        }
        r
    }
}

impl vstd::std_specs::ops::DivSpecImpl for Ch8 {
    open spec fn obeys_div_spec() -> bool {
        true
    }

    open spec fn div_req(self, rhs: Ch8) -> bool {
        true
    }

    open spec fn div_spec(self, rhs: Ch8) -> Ch8 {
        Ch8::of(div_sat(self.val(), rhs.val(), Ch8::max_value()))
    }
}

/// Sum, saturating at full intensity.
impl core::ops::Add for Ch16 {
    type Output = Ch16;

    fn add(self, rhs: Ch16) -> (r: Ch16) {
        let r = self.saturating_add(rhs);
        proof {
            r.lemma_of();
        }
        r
    }
}

impl vstd::std_specs::ops::AddSpecImpl for Ch16 {
    open spec fn obeys_add_spec() -> bool {
        true
    }

    open spec fn add_req(self, rhs: Ch16) -> bool {
        true
    }

    open spec fn add_spec(self, rhs: Ch16) -> Ch16 {
        Ch16::of(if self.val() + rhs.val() > Ch16::max_value() { Ch16::max_value() } else { self.val() + rhs.val() })
    }
}

/// Difference, saturating at zero.
impl core::ops::Sub for Ch16 {
    type Output = Ch16;

    fn sub(self, rhs: Ch16) -> (r: Ch16) {
        let r = self.saturating_sub(rhs);
        proof {
            r.lemma_of();
        }
        r
    }
}

impl vstd::std_specs::ops::SubSpecImpl for Ch16 {
    open spec fn obeys_sub_spec() -> bool {
        true
    }

    open spec fn sub_req(self, rhs: Ch16) -> bool {
        true
    }

    open spec fn sub_spec(self, rhs: Ch16) -> Ch16 {
        Ch16::of(if self.val() < rhs.val() { 0 } else { self.val() - rhs.val() })
    }
}

/// Fixed-point product: full intensity times full intensity is full intensity.
impl core::ops::Mul for Ch16 {
    type Output = Ch16;

    fn mul(self, rhs: Ch16) -> (r: Ch16) {
        let r = self.product(rhs);
        proof {
            r.lemma_of();
        }
        r
    }
}

impl vstd::std_specs::ops::MulSpecImpl for Ch16 {
    open spec fn obeys_mul_spec() -> bool {
        true
    }

    open spec fn mul_req(self, rhs: Ch16) -> bool {
        true
    }

    open spec fn mul_spec(self, rhs: Ch16) -> Ch16 {
        Ch16::of(mul16(self.val(), rhs.val()))
    }
}

/// Fixed-point quotient, saturating at full intensity; zero for a zero divisor.
impl core::ops::Div for Ch16 {
    type Output = Ch16;

    fn div(self, rhs: Ch16) -> (r: Ch16) {
        let r = self.quotient(rhs);
        proof {
            r.lemma_of();
        }
        r
    }
}

impl vstd::std_specs::ops::DivSpecImpl for Ch16 {
    open spec fn obeys_div_spec() -> bool {
        true
    }

    open spec fn div_req(self, rhs: Ch16) -> bool {
        true
    }

    open spec fn div_spec(self, rhs: Ch16) -> Ch16 {
        Ch16::of(div_sat(self.val(), rhs.val(), Ch16::max_value()))
    }
}

impl From<Ch8> for u8 {
    fn from(c: Ch8) -> (r: u8) {
        c.0
    }
}

impl vstd::std_specs::convert::FromSpecImpl<Ch8> for u8 {
    open spec fn obeys_from_spec() -> bool {
        true
    }

    open spec fn from_spec(c: Ch8) -> u8 {
        c.val() as u8
    }
}

impl From<Ch16> for u16 {
    fn from(c: Ch16) -> (r: u16) {
        c.0
    }
}

impl vstd::std_specs::convert::FromSpecImpl<Ch16> for u16 {
    open spec fn obeys_from_spec() -> bool {
        true
    }

    open spec fn from_spec(c: Ch16) -> u16 {
        c.val() as u16
    }
}

/// Widening an 8-bit channel to 16 bits and narrowing it back gives the
/// channel back.
pub proof fn lemma_widen_narrow(c: Ch8)
    ensures
        rescale(rescale(c.value(), 255, 65535), 65535, 255) == c.value(),
        Ch8::of(Ch16::of(c.val() * 257).val() / 256) == c,
{
    c.lemma_of();
    Ch16::lemma_of_value(c.val() * 257);
}

/// At every bit depth, full intensity times full intensity is full intensity,
/// and full intensity times zero is zero.
pub proof fn lemma_mul_max_min<C: Channel>()
    ensures
        C::mul_value(C::max_value(), C::max_value()) == C::max_value(),
        C::mul_value(C::max_value(), 0) == 0,
{
    C::lemma_max();
    assert(widen12(255) == 4095);
    assert(4095 * 4095 == 16769025int) by (nonlinear_arith);
    assert(16769025int / 0x1_0000 == 255);
    assert(mul8(255, 255) == 255);
    assert(mul8(255, 0) == 0);
    assert(widen24(65535) == 0xff_ffff);
    assert(0xff_ffff * 0xff_ffff == 0xff_fffe_0000_01int) by (nonlinear_arith);
    assert(0xff_fffe_0000_01int / 0x1_0000_0000 == 65535);
    assert(mul16(65535, 65535) == 65535);
    assert(mul16(65535, 0) == 0);
}

} // verus!
