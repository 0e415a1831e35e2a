//! Unsigned 256-bit integers held as four 64-bit limbs.
//!
//! Gas prices are 128-bit quantities and gas counts 64-bit ones, so one
//! transaction costs less than 2^192 and no sum over a vector of them can
//! reach 2^256. The arithmetic here is exact: nothing wraps and nothing is
//! rounded.

use vstd::prelude::*;

verus! {

/// The weight of the second limb, 2^64.
pub open spec fn pow64() -> int {
    0x1_0000_0000_0000_0000
}

/// The weight of the third limb, 2^128.
pub open spec fn pow128() -> int {
    0x1_0000_0000_0000_0000_0000_0000_0000_0000int
}

/// The weight of the fourth limb, 2^192.
pub open spec fn pow192() -> int {
    0x1_0000_0000_0000_0000_0000_0000_0000_0000_0000_0000_0000_0000int
}

/// The first value that four limbs cannot hold, 2^256.
pub open spec fn pow256() -> int {
    0x1_0000_0000_0000_0000_0000_0000_0000_0000_0000_0000_0000_0000_0000_0000_0000_0000int
}

/// The number that four limbs stand for, the least significant first.
pub open spec fn limbs_value(w0: u64, w1: u64, w2: u64, w3: u64) -> nat {
    (w0 as int + w1 as int * pow64() + w2 as int * pow128() + w3 as int * pow192()) as nat
}

/// An unsigned integer below 2^256.
#[derive(Clone, Copy, Debug, PartialEq, Eq, Structural)]
pub struct Uint256 {
    /// Bits 0 to 63.
    pub w0: u64,
    /// Bits 64 to 127.
    pub w1: u64,
    /// Bits 128 to 191.
    pub w2: u64,
    /// Bits 192 to 255.
    pub w3: u64,
}

impl View for Uint256 {
    type V = nat;

    open spec fn view(&self) -> nat {
        limbs_value(self.w0, self.w1, self.w2, self.w3)
    }
}

/// Splits a 128-bit value into its low and high 64 bits.
fn split(x: u128) -> (halves: (u64, u64))
    ensures
        x == halves.0 + halves.1 * pow64(),
{
    let low: u128 = x % 0x1_0000_0000_0000_0000u128;
    let high: u128 = x / 0x1_0000_0000_0000_0000u128;
    (low as u64, high as u64)
}

/// The full product of two 64-bit values.
fn mul64(a: u64, b: u64) -> (p: u128)
    ensures
        p == a * b,
        p <= 0xFFFF_FFFF_FFFF_FFFE_0000_0000_0000_0001,
{
    assert(a * b <= 0xFFFF_FFFF_FFFF_FFFF * 0xFFFF_FFFF_FFFF_FFFF) by (nonlinear_arith)
        requires
            0 <= a <= 0xFFFF_FFFF_FFFF_FFFF,
            0 <= b <= 0xFFFF_FFFF_FFFF_FFFF,
    ;
    let wide_a: u128 = a as u128;
    let wide_b: u128 = b as u128;
    wide_a * wide_b
}

impl Uint256 {
    /// Zero.
    pub fn zero() -> (z: Uint256)
        ensures
            z@ == 0,
    {
        Uint256 { w0: 0, w1: 0, w2: 0, w3: 0 }
    }

    /// The value whose limbs are `limbs`, the least significant first.
    pub fn from_limbs(limbs: [u64; 4]) -> (x: Uint256)
        ensures
            x == (Uint256 { w0: limbs@[0], w1: limbs@[1], w2: limbs@[2], w3: limbs@[3] }),
            x@ == limbs_value(limbs@[0], limbs@[1], limbs@[2], limbs@[3]),
    {
        Uint256 { w0: limbs[0], w1: limbs[1], w2: limbs[2], w3: limbs[3] }
    }

    /// The four limbs, the least significant first.
    pub fn limbs(&self) -> (limbs: [u64; 4])
        ensures
            limbs@ == seq![self.w0, self.w1, self.w2, self.w3],
    {
        let limbs: [u64; 4] = [self.w0, self.w1, self.w2, self.w3];
        assert(limbs@ =~= seq![self.w0, self.w1, self.w2, self.w3]);
        limbs
    }

    /// Widens a 128-bit value.
    pub fn from_u128(x: u128) -> (wide: Uint256)
        ensures
            wide@ == x,
    {
        let (low, high) = split(x);
        Uint256 { w0: low, w1: high, w2: 0, w3: 0 }
    }

    /// The value as 128 bits, where it fits.
    pub fn to_u128(&self) -> (narrow: Option<u128>)
        ensures
            self@ <= u128::MAX ==> narrow == Some(self@ as u128),
            self@ > u128::MAX ==> narrow is None,
    {
        if self.w2 == 0 && self.w3 == 0 {
            let high: u128 = self.w1 as u128;
            let low: u128 = self.w0 as u128;
            Some(high * 0x1_0000_0000_0000_0000u128 + low)
        } else {
            None
        }
    }

    /// The value as 64 bits, where it fits.
    pub fn to_u64(&self) -> (narrow: Option<u64>)
        ensures
            self@ <= u64::MAX ==> narrow == Some(self@ as u64),
            self@ > u64::MAX ==> narrow is None,
    {
        if self.w1 == 0 && self.w2 == 0 && self.w3 == 0 {
            Some(self.w0)
        } else {
            None
        }
    }

    /// The exact product of a 128-bit and a 64-bit value.
    pub fn product(a: u128, b: u64) -> (p: Uint256)
        ensures
            p@ == a * b,
            p.w3 == 0,
    {
        let (a_low, a_high) = split(a);
        let (l0, l1) = split(mul64(a_low, b));
        let (h0, h1) = split(mul64(a_high, b));
        let middle: u128 = l1 as u128 + h0 as u128;
        let (w1, carry) = split(middle);
        let top: u128 = h1 as u128 + carry as u128;
        assert(a * b == a_low * b + (a_high * b) * pow64()) by (nonlinear_arith)
            requires
                a == a_low + a_high * pow64(),
        ;
        Uint256 { w0: l0, w1, w2: top as u64, w3: 0 }
    }

    /// The sum, where it is below 2^256.
    pub fn checked_add(&self, other: &Uint256) -> (sum: Option<Uint256>)
        ensures
            self@ + other@ < pow256() ==> sum is Some && sum->0@ == self@ + other@,
            self@ + other@ >= pow256() ==> sum is None,
    {
        let (w0, c0) = split(self.w0 as u128 + other.w0 as u128);
        let (w1, c1) = split(self.w1 as u128 + other.w1 as u128 + c0 as u128);
        let (w2, c2) = split(self.w2 as u128 + other.w2 as u128 + c1 as u128);
        let (w3, c3) = split(self.w3 as u128 + other.w3 as u128 + c2 as u128);
        if c3 == 0 {
            Some(Uint256 { w0, w1, w2, w3 })
        } else {
            None
        }
    }

    /// Quotient and remainder of the division by a 32-bit divisor, where
    /// the divisor is not zero.
    pub fn checked_div_rem(&self, divisor: u32) -> (parts: Option<(Uint256, u32)>)
        ensures
            match parts {
                Some((quotient, remainder)) => divisor != 0 && quotient@ == self@ / (
                divisor as nat) && remainder == self@ % (divisor as nat),
                None => divisor == 0,
            },
    {
        if divisor == 0 {
            return None;
        }
        let (q3, r3) = div_step(0, self.w3, divisor);
        let (q2, r2) = div_step(r3, self.w2, divisor);
        let (q1, r1) = div_step(r2, self.w1, divisor);
        let (q0, r0) = div_step(r1, self.w0, divisor);
        let quotient = Uint256 { w0: q0, w1: q1, w2: q2, w3: q3 };
        proof {
            let d: int = divisor as int;
            assert(self@ == quotient@ * d + r0) by (nonlinear_arith)
                requires
                    self@ == self.w0 + self.w1 * pow64() + self.w2 * pow128() + self.w3
                        * pow192(),
                    quotient@ == q0 + q1 * pow64() + q2 * pow128() + q3 * pow192(),
                    self.w3 == q3 * d + r3,
                    r3 * pow64() + self.w2 == q2 * d + r2,
                    r2 * pow64() + self.w1 == q1 * d + r1,
                    r1 * pow64() + self.w0 == q0 * d + r0,
                    pow128() == pow64() * pow64(),
                    pow192() == pow64() * pow64() * pow64(),
            ;
            vstd::arithmetic::div_mod::lemma_fundamental_div_mod_converse(
                self@ as int,
                d,
                quotient@ as int,
                r0 as int,
            );
        }
        Some((quotient, r0))
    }
}

/// Two values that stand for the same number have the same limbs.
pub proof fn lemma_value_fixes_limbs(a: Uint256, b: Uint256)
    requires
        a@ == b@,
    ensures
        a == b,
{
    assert(a.w0 == b.w0 && a.w1 == b.w1 && a.w2 == b.w2 && a.w3 == b.w3) by (nonlinear_arith)
        requires
            a.w0 + a.w1 * pow64() + a.w2 * pow128() + a.w3 * pow192() == b.w0 + b.w1 * pow64()
                + b.w2 * pow128() + b.w3 * pow192(),
            0 <= a.w0 < pow64(),
            0 <= a.w1 < pow64(),
            0 <= a.w2 < pow64(),
            0 <= a.w3 < pow64(),
            0 <= b.w0 < pow64(),
            0 <= b.w1 < pow64(),
            0 <= b.w2 < pow64(),
            0 <= b.w3 < pow64(),
            pow128() == pow64() * pow64(),
            pow192() == pow64() * pow64() * pow64(),
            pow64() == 0x1_0000_0000_0000_0000,
    ;
}

/// One step of the long division by `divisor`: the remainder carried in
/// from the limb above is joined to `limb` and divided.
fn div_step(carried: u32, limb: u64, divisor: u32) -> (parts: (u64, u32))
    requires
        carried < divisor,
    ensures
        carried * pow64() + limb == parts.0 * divisor + parts.1,
        parts.1 < divisor,
{
    let joined: u128 = carried as u128 * 0x1_0000_0000_0000_0000u128 + limb as u128;
    let wide_divisor: u128 = divisor as u128;
    let q: u128 = joined / wide_divisor;
    let r: u128 = joined % wide_divisor;
    proof {
        vstd::arithmetic::div_mod::lemma_fundamental_div_mod(joined as int, divisor as int);
        assert(q < pow64()) by (nonlinear_arith)
            requires
                joined == divisor * q + r,
                0 <= r,
                0 < divisor,
                joined < divisor * pow64(),
        ;
        assert(divisor * q == q * divisor) by (nonlinear_arith);
    }
    (q as u64, r as u32)
}

} // verus!
