//! IEEE-754 numbers held by their bit patterns.
//!
//! Percentages, opacities and positions in the settings and readings are
//! binary floating-point numbers. The library keeps each one as its exact
//! bit pattern and reads it with integer arithmetic only: sign,
//! magnitude, the total order of the finite values and the decimal text of
//! the nearest whole number.
use vstd::prelude::*;
use vstd::arithmetic::power2::*;
use crate::text::{decimal, push_char, push_decimal, push_str};

verus! {

/// An IEEE-754 binary32 (`f32`) value, held by its bit pattern.
#[derive(Debug, Clone, Copy)]
pub struct F32Bits(pub u32);

/// An IEEE-754 binary64 (`f64`) value, held by its bit pattern.
#[derive(Debug, Clone, Copy)]
pub struct F64Bits(pub u64);

/// The sign bit of a binary32 pattern.
pub open spec fn f32_negative(b: u32) -> bool {
    b >= 0x8000_0000
}

/// The pattern without its sign bit.
pub open spec fn f32_magnitude(b: u32) -> int {
    b as int % 0x8000_0000
}

/// Whether the pattern is a NaN (all exponent bits set, fraction not zero).
pub open spec fn f32_is_nan(b: u32) -> bool {
    f32_magnitude(b) > 0x7f80_0000
}

/// Whether the pattern is an infinity.
pub open spec fn f32_is_infinite(b: u32) -> bool {
    f32_magnitude(b) == 0x7f80_0000
}

/// Position of a non-NaN value in the order of binary32 values: the
/// magnitudes of non-negative patterns grow with their value, so the
/// magnitude, negated for negative patterns, orders them as the numbers
/// they stand for (both zeros at 0).
pub open spec fn f32_key(b: u32) -> int {
    if f32_negative(b) {
        -f32_magnitude(b)
    } else {
        f32_magnitude(b)
    }
}

/// `a < b` on binary32 values (false when either is NaN).
pub open spec fn f32_lt(a: u32, b: u32) -> bool {
    !f32_is_nan(a) && !f32_is_nan(b) && f32_key(a) < f32_key(b)
}

/// `a >= b` on binary32 values (false when either is NaN).
pub open spec fn f32_ge(a: u32, b: u32) -> bool {
    !f32_is_nan(a) && !f32_is_nan(b) && f32_key(a) >= f32_key(b)
}

/// `v.clamp(lo, hi)` on binary32 values: `lo` below `lo`, `hi` above `hi`,
/// and `v` itself otherwise (a NaN stays NaN).
pub open spec fn f32_clamped(v: u32, lo: u32, hi: u32) -> u32 {
    if f32_lt(v, lo) {
        lo
    } else if f32_lt(hi, v) {
        hi
    } else {
        v
    }
}

/// The biased exponent field.
pub open spec fn f32_exponent_field(b: u32) -> int {
    f32_magnitude(b) / 0x80_0000
}

/// The significand of a finite pattern, with the hidden bit for normal
/// numbers.
pub open spec fn f32_significand(b: u32) -> nat {
    if f32_exponent_field(b) == 0 {
        (f32_magnitude(b) % 0x80_0000) as nat
    } else {
        (f32_magnitude(b) % 0x80_0000 + 0x80_0000) as nat
    }
}

/// The power of two that scales the significand of a finite pattern: the
/// absolute value is `f32_significand(b) * 2^f32_scale(b)`.
pub open spec fn f32_scale(b: u32) -> int {
    if f32_exponent_field(b) == 0 {
        -149
    } else {
        f32_exponent_field(b) - 150
    }
}

/// The absolute value of a finite pattern times `2^149`, a whole number
/// (every finite binary32 value is a multiple of `2^-149`).
pub open spec fn f32_scaled_magnitude(b: u32) -> nat {
    f32_significand(b) * pow2((f32_scale(b) + 149) as nat)
}

/// The value of a finite pattern times `2^149`, with its sign.
pub open spec fn f32_scaled_value(b: u32) -> int {
    if f32_negative(b) {
        -f32_scaled_magnitude(b)
    } else {
        f32_scaled_magnitude(b) as int
    }
}

/// Between finite non-negative patterns, a larger magnitude field means a
/// larger value.
proof fn lemma_magnitude_orders_values(a: u32, b: u32)
    requires
        f32_magnitude(a) < f32_magnitude(b) < 0x7f80_0000,
    ensures
        f32_scaled_magnitude(a) < f32_scaled_magnitude(b),
{
    let ea = f32_exponent_field(a);
    let eb = f32_exponent_field(b);
    let sa = f32_significand(a);
    let sb = f32_significand(b);
    let ka = (f32_scale(a) + 149) as nat;
    let kb = (f32_scale(b) + 149) as nat;
    assert(ea <= eb);
    assert(sa < 0x100_0000 && sb < 0x100_0000);
    if ea == eb {
        assert(sa < sb);
        lemma_pow2_pos(ka);
        assert(sa * pow2(ka) < sb * pow2(kb)) by (nonlinear_arith)
            requires sa < sb, ka == kb, pow2(ka) > 0;
    } else if ea == 0 && eb == 1 {
        assert(ka == kb);
        assert(sa < 0x80_0000 <= sb);
        lemma_pow2_pos(ka);
        assert(sa * pow2(ka) < sb * pow2(kb)) by (nonlinear_arith)
            requires sa < sb, ka == kb, pow2(ka) > 0;
    } else {
        assert(ka < kb);
        assert(sb >= 0x80_0000);
        lemma_pow2_pos(ka);
        lemma2_to64();
        lemma_pow2_adds(24, ka);
        lemma_pow2_adds(23, kb);
        if 24 + ka < 23 + kb {
            lemma_pow2_strictly_increases(24 + ka, 23 + kb);
        }
        assert(sa * pow2(ka) < pow2(24) * pow2(ka)) by (nonlinear_arith)
            requires sa < pow2(24), pow2(ka) > 0;
        assert(pow2(23) * pow2(kb) <= sb * pow2(kb)) by (nonlinear_arith)
            requires pow2(23) <= sb, pow2(kb) >= 0;
        lemma_pow2_pos(ka);
    }
}

/// The order of `f32_key` is the order of the values: between finite
/// patterns, `f32_lt` holds exactly when the first value is smaller.
pub proof fn lemma_key_orders_values(a: u32, b: u32)
    requires
        f32_magnitude(a) < 0x7f80_0000,
        f32_magnitude(b) < 0x7f80_0000,
    ensures
        f32_lt(a, b) <==> f32_scaled_value(a) < f32_scaled_value(b),
        f32_ge(a, b) <==> f32_scaled_value(a) >= f32_scaled_value(b),
{
    lemma_magnitude_zero_is_zero(a);
    lemma_magnitude_zero_is_zero(b);
    if f32_magnitude(a) < f32_magnitude(b) {
        lemma_magnitude_orders_values(a, b);
    } else if f32_magnitude(b) < f32_magnitude(a) {
        lemma_magnitude_orders_values(b, a);
    } else {
        assert(f32_significand(a) == f32_significand(b));
        assert(f32_scale(a) == f32_scale(b));
    }
}

/// Only the zero magnitude stands for zero.
proof fn lemma_magnitude_zero_is_zero(b: u32)
    requires
        f32_magnitude(b) < 0x7f80_0000,
    ensures
        f32_scaled_magnitude(b) == 0 <==> f32_magnitude(b) == 0,
{
    let k = (f32_scale(b) + 149) as nat;
    lemma_pow2_pos(k);
    if f32_magnitude(b) != 0 {
        assert(f32_significand(b) > 0);
        assert(f32_significand(b) * pow2(k) > 0) by (nonlinear_arith)
            requires f32_significand(b) > 0, pow2(k) > 0;
    } else {
        assert(f32_significand(b) == 0);
    }
}

/// `m / d` rounded to the nearest whole number, halves to the even one.
pub open spec fn round_half_even_div(m: nat, d: nat) -> nat {
    let q = m / d;
    let r = m % d;
    if 2 * r > d || (2 * r == d && q % 2 == 1) {
        q + 1
    } else {
        q
    }
}

/// The absolute value of a finite pattern rounded to a whole number, halves
/// to even.
pub open spec fn f32_rounded_magnitude(b: u32) -> nat {
    if f32_scale(b) >= 0 {
        f32_significand(b) * pow2(f32_scale(b) as nat)
    } else {
        round_half_even_div(f32_significand(b), pow2((-f32_scale(b)) as nat))
    }
}

/// Text of a binary32 value printed with no decimals (`{:.0}`): `NaN`,
/// `inf`, `-inf`, or the sign of the value followed by its rounded
/// magnitude in decimal.
pub open spec fn f32_whole_text(b: u32) -> Seq<char> {
    if f32_is_nan(b) {
        seq!['N', 'a', 'N']
    } else if f32_is_infinite(b) {
        if f32_negative(b) {
            seq!['-', 'i', 'n', 'f']
        } else {
            seq!['i', 'n', 'f']
        }
    } else if f32_negative(b) {
        seq!['-'] + decimal(f32_rounded_magnitude(b))
    } else {
        decimal(f32_rounded_magnitude(b))
    }
}

pub proof fn lemma_pow2_0() 
    ensures
        pow2(0) == 1,
{
    lemma2_to64();
}

pub proof fn lemma_pow2_128()
    ensures
        pow2(128) == 0x1_0000_0000_0000_0000_0000_0000_0000_0000,
{
    lemma2_to64();
    lemma_pow2_adds(64, 64);
}

/// `2^k` for `k < 32`.
pub fn pow2_u32(k: u32) -> (p: u32)
    requires
        k < 32,
    ensures
        p as nat == pow2(k as nat),
{
    let mut p: u32 = 1;
    let mut i: u32 = 0;
    proof {
        lemma_pow2_0();
        lemma2_to64();
    }
    while i < k
        invariant
            i <= k < 32,
            p as nat == pow2(i as nat),
        decreases k - i,
    {
        proof {
            lemma_pow2_unfold((i + 1) as nat);
            lemma_pow2_strictly_increases((i + 1) as nat, 32);
            lemma2_to64();
        }
        p = p * 2;
        i = i + 1;
    }
    p
}

/// `m * 2^k` for `m < 2^24` and `k <= 104`.
fn scale_up(m: u32, k: u32) -> (n: u128)
    requires
        m < 0x100_0000,
        k <= 104,
    ensures
        n as nat == m as nat * pow2(k as nat),
{
    let mut n: u128 = m as u128;
    let mut i: u32 = 0;
    proof {
        lemma_pow2_0();
        lemma2_to64();
    }
    while i < k
        invariant
            i <= k <= 104,
            m < 0x100_0000,
            n as nat == m as nat * pow2(i as nat),
            n < pow2((24 + i) as nat),
        decreases k - i,
    {
        proof {
            lemma_pow2_unfold((i + 1) as nat);
            lemma_pow2_unfold((25 + i) as nat);
            if 25 + i < 128 {
                lemma_pow2_strictly_increases((25 + i) as nat, 128);
            }
            lemma_pow2_128();
            assert(m as nat * pow2((i + 1) as nat) == m as nat * (2 * pow2(i as nat))) ;
            assert(m as nat * (2 * pow2(i as nat)) == 2 * (m as nat * pow2(i as nat)))
                by (nonlinear_arith);
        }
        n = n * 2;
        i = i + 1;
    }
    n
}

/// `n / d` rounded to the nearest whole number, halves to the even one.
pub fn round_half_even(n: u128, d: u128) -> (r: u128)
    requires
        0 < d < 0x1_0000_0000_0000_0000_0000_0000,
        n < 0x1_0000_0000_0000_0000_0000_0000,
    ensures
        r as nat == round_half_even_div(n as nat, d as nat),
{
    let q = n / d;
    let rem = n % d;
    if rem * 2 > d || (rem * 2 == d && q % 2 == 1) {
        q + 1
    } else {
        q
    }
}

/// Whether the pattern stands exactly for the whole number `n`.
pub open spec fn f32_equals_nat(b: u32, n: nat) -> bool {
    &&& !f32_negative(b)
    &&& !f32_is_nan(b)
    &&& !f32_is_infinite(b)
    &&& if f32_scale(b) >= 0 {
        f32_significand(b) * pow2(f32_scale(b) as nat) == n
    } else {
        f32_significand(b) == n * pow2((-f32_scale(b)) as nat)
    }
}

/// How many low bits of `x` a binary32 number cannot hold, counting from
/// `k`: the least `j >= k` with `x < 2^(24 + j)`.
pub open spec fn f32_dropped_bits_from(x: nat, k: nat) -> nat
    decreases 64 - k,
{
    if k >= 64 || x < pow2(24 + k) {
        k
    } else {
        f32_dropped_bits_from(x, k + 1)
    }
}

/// The binary32 number nearest to `x` (halves to an even significand).
pub open spec fn f32_nearest(x: nat) -> nat {
    let k = f32_dropped_bits_from(x, 0);
    round_half_even_div(x, pow2(k)) * pow2(k)
}

/// The bit pattern of a normal positive binary32 number with significand
/// `sig` (hidden bit included) scaled by `2^(field - 150)`.
fn assemble_f32(sig: u32, field: u32) -> (b: u32)
    requires
        0x80_0000 <= sig < 0x100_0000,
        1 <= field < 255,
    ensures
        !f32_negative(b),
        f32_exponent_field(b) == field,
        f32_significand(b) == sig,
        f32_scale(b) == field - 150,
        !f32_is_nan(b),
        !f32_is_infinite(b),
{
    let b = field * 0x80_0000 + (sig - 0x80_0000);
    assert(b < 0x8000_0000);
    assert(f32_magnitude(b) == b);
    assert(b as int / 0x80_0000 == field);
    assert(b as int % 0x80_0000 == sig - 0x80_0000);
    b
}

/// `v as f32`: the binary32 number nearest to `v`, halves to an even
/// significand.
pub fn u32_to_f32(v: u32) -> (r: F32Bits)
    ensures
        f32_equals_nat(r.0, f32_nearest(v as nat)),
{
    proof {
        lemma2_to64();
        lemma_pow2_0();
    }
    if v == 0 {
        assert(f32_dropped_bits_from(0, 0) == 0);
        assert(round_half_even_div(0, 1) == 0);
        assert(f32_nearest(0) == 0);
        assert(f32_significand(0) == 0);
        assert(f32_scale(0) == -149);
        assert(0 * pow2(149) == 0);
        return F32Bits(0);
    }
    if v < 0x100_0000 {
        assert(f32_dropped_bits_from(v as nat, 0) == 0);
        assert(f32_nearest(v as nat) == v);
        let mut m: u32 = v;
        let mut s: u32 = 0;
        while m < 0x80_0000
            invariant
                0 < m < 0x100_0000,
                s <= 23,
                m as nat == v as nat * pow2(s as nat),
                m < 0x80_0000 ==> s < 23,
            decreases 23 - s,
        {
            proof {
                lemma2_to64();
                lemma_pow2_unfold((s + 1) as nat);
                assert(v as nat * pow2((s + 1) as nat) == 2 * (v as nat * pow2(s as nat)))
                    by (nonlinear_arith)
                    requires pow2((s + 1) as nat) == 2 * pow2(s as nat);
                if s + 1 >= 23 {
                    assert(pow2((s + 1) as nat) >= 0x80_0000) by {
                        if s + 1 > 23 {
                            lemma_pow2_strictly_increases(23, (s + 1) as nat);
                        }
                    }
                    assert(v as nat * pow2((s + 1) as nat) >= pow2((s + 1) as nat))
                        by (nonlinear_arith)
                        requires v >= 1;
                }
            }
            m = m * 2;
            s = s + 1;
        }
        let b = assemble_f32(m, 150 - s);
        assert(f32_scale(b) == -(s as int));
        return F32Bits(b);
    }
    let mut k: u32 = 0;
    let mut limit: u64 = 0x100_0000;
    assert(limit == pow2(24 + k as nat));
    assert(v >= pow2(23));
    while v as u64 >= limit
        invariant
            k <= 8,
            limit as nat == pow2((24 + k) as nat),
            f32_dropped_bits_from(v as nat, 0) == f32_dropped_bits_from(v as nat, k as nat),
            v >= pow2((23 + k) as nat),
        decreases 8 - k,
    {
        proof {
            lemma2_to64();
            if 24 + k >= 32 {
                if 24 + k > 32 {
                    lemma_pow2_strictly_increases(32, (24 + k) as nat);
                }
                assert(false);
            }
            lemma_pow2_unfold((25 + k) as nat);
        }
        limit = limit * 2;
        k = k + 1;
    }
    assert(f32_dropped_bits_from(v as nat, k as nat) == k);
    assert(k >= 1);
    let p = pow2_u32(k);
    proof {
        lemma_pow2_pos(k as nat);
        lemma_pow2_unfold((24 + k) as nat);
        lemma_pow2_adds(24, k as nat);
        lemma_pow2_adds(23, k as nat);
        if k < 8 {
            lemma_pow2_strictly_increases(k as nat, 8);
        }
    }
    let q = round_half_even(v as u128, p as u128);
    // 2^23 * p <= v < 2^24 * p, so the rounded quotient lies in 2^23..=2^24.
    assert(0x80_0000 <= q <= 0x100_0000) by (nonlinear_arith)
        requires
            q == round_half_even_div(v as nat, p as nat),
            p > 0,
            0x80_0000 * p <= v,
            v < 0x100_0000 * p,
    {
        let qq = v as nat / p as nat;
        let rr = v as nat % p as nat;
        assert(v as nat == qq * p + rr);
        assert(rr < p);
        assert(0x80_0000 <= qq);
        assert(qq < 0x100_0000);
        assert(qq <= q <= qq + 1);
    }
    let q = q as u32;
    if q == 0x100_0000 {
        let b = assemble_f32(0x80_0000, 151 + k);
        proof {
            lemma_pow2_unfold((k + 1) as nat);
            assert(0x80_0000 * pow2((k + 1) as nat) == 0x100_0000 * pow2(k as nat))
                by (nonlinear_arith)
                requires pow2((k + 1) as nat) == 2 * pow2(k as nat);
        }
        F32Bits(b)
    } else {
        let b = assemble_f32(q, 150 + k);
        F32Bits(b)
    }
}

impl F32Bits {
    /// Whether the value is a NaN.
    pub fn is_nan(self) -> (r: bool)
        ensures
            r == f32_is_nan(self.0),
    {
        self.0 % 0x8000_0000 > 0x7f80_0000
    }

    fn key(self) -> (k: i64)
        ensures
            k == f32_key(self.0),
    {
        let mag = (self.0 % 0x8000_0000) as i64;
        if self.0 >= 0x8000_0000 {
            -mag
        } else {
            mag
        }
    }

    /// `self < other` as binary32 values.
    pub fn less_than(self, other: F32Bits) -> (r: bool)
        ensures
            r == f32_lt(self.0, other.0),
    {
        !self.is_nan() && !other.is_nan() && self.key() < other.key()
    }

    /// `self >= other` as binary32 values.
    pub fn at_least(self, other: F32Bits) -> (r: bool)
        ensures
            r == f32_ge(self.0, other.0),
    {
        !self.is_nan() && !other.is_nan() && self.key() >= other.key()
    }

    /// `self.clamp(lo, hi)` as binary32 values.
    pub fn clamp(self, lo: F32Bits, hi: F32Bits) -> (r: F32Bits)
        requires
            !f32_is_nan(lo.0),
            !f32_is_nan(hi.0),
            f32_key(lo.0) <= f32_key(hi.0),
        ensures
            r.0 == f32_clamped(self.0, lo.0, hi.0),
    {
        if self.less_than(lo) {
            lo
        } else if hi.less_than(self) {
            hi
        } else {
            self
        }
    }

    /// Appends the value printed with no decimals, as `{:.0}` prints it.
    pub fn push_whole(self, out: &mut String)
        ensures
            final(out)@ == old(out)@ + f32_whole_text(self.0),
    {
        let b = self.0;
        let mag = b % 0x8000_0000;
        let negative = b >= 0x8000_0000;
        if mag > 0x7f80_0000 {
            push_str(out, "NaN");
            proof { reveal_strlit("NaN"); }
            return;
        }
        if mag == 0x7f80_0000 {
            if negative {
                push_str(out, "-inf");
                proof { reveal_strlit("-inf"); }
            } else {
                push_str(out, "inf");
                proof { reveal_strlit("inf"); }
            }
            return;
        }
        let exp = mag / 0x80_0000;
        let frac = mag % 0x80_0000;
        let sig: u32 = if exp == 0 { frac } else { frac + 0x80_0000 };
        assert(sig as nat == f32_significand(b));
        let whole: u128 = if exp >= 150 {
            scale_up(sig, exp - 150)
        } else {
            let k: u32 = if exp == 0 { 149 } else { 150 - exp };
            assert(k as int == -f32_scale(b));
            if k <= 24 {
                let d = pow2_u32(k);
                proof {
                    lemma_pow2_pos(k as nat);
                    lemma2_to64();
                    if k < 24 {
                        lemma_pow2_strictly_increases(k as nat, 24);
                    }
                }
                let q = sig / d;
                let r = sig % d;
                if r * 2 > d || (r * 2 == d && q % 2 == 1) {
                    (q + 1) as u128
                } else {
                    q as u128
                }
            } else {
                proof {
                    lemma2_to64();
                    if k > 25 {
                        lemma_pow2_strictly_increases(25, k as nat);
                    }
                    assert(sig as nat / pow2(k as nat) == 0) by (nonlinear_arith)
                        requires sig < 0x100_0000, pow2(k as nat) >= 0x200_0000;
                    assert(sig as nat % pow2(k as nat) == sig) by (nonlinear_arith)
                        requires sig < 0x100_0000, pow2(k as nat) >= 0x200_0000;
                }
                0
            }
        };
        assert(whole as nat == f32_rounded_magnitude(b));
        if negative {
            push_char(out, '-');
        }
        push_decimal(out, whole);
    }
}

} // verus!
