//! The Xemics 32-bit floating-point format of the gauge's gain constants,
//! held exactly in integers.
//!
//! A word is an exponent byte `e` followed by 24 mantissa bits. The top
//! mantissa bit doubles as the sign (set for a negative value); on decoding
//! it is forced to 1, so the mantissa `m` lies in `[2^23, 2^24)` and the
//! word stands for `±m * 2^(e - 152)`.
use vstd::prelude::*;

verus! {

/// Smallest normalized mantissa, `2^23`.
pub const MANTISSA_MIN: u32 = 0x800000;
/// One past the largest mantissa, `2^24`.
pub const MANTISSA_LIMIT: u32 = 0x1000000;
/// Exponent byte of a word whose value is its mantissa times `2^-24`,
/// plus 24 for the mantissa's scale: a value is `m * 2^(e - EXPONENT_BIAS)`.
pub const EXPONENT_BIAS: i64 = 152;
/// Bound on the numerator and denominator of a ratio to encode.
pub const RATIO_LIMIT: u128 = 0x1_0000_0000_0000_0000_0000;

/// `2^n`.
pub open spec fn two_pow(n: nat) -> nat
    decreases n,
{
    if n == 0 {
        1
    } else {
        2 * two_pow((n - 1) as nat)
    }
}

/// `m` is the mantissa and `s` the binary shift of the ratio `p / q`:
/// `m = floor(p / q * 2^s)` and `2^23 <= m < 2^24`.
pub open spec fn normal_form(p: nat, q: nat, s: int, m: nat) -> bool {
    &&& MANTISSA_MIN <= m < MANTISSA_LIMIT
    &&& s >= 0 ==> m * q <= p * two_pow(s as nat) < (m + 1) * q
    &&& s < 0 ==> m * (q * two_pow((-s) as nat)) <= p < (m + 1) * (q * two_pow((-s) as nat))
}

/// The word with exponent byte `e` and mantissa `m`, with the sign bit
/// cleared for a non-negative value.
pub open spec fn xemics_word(negative: bool, e: u8, m: nat) -> u32 {
    (e as nat * MANTISSA_LIMIT as nat + if negative {
        m
    } else {
        (m - MANTISSA_MIN) as nat
    }) as u32
}

/// Exponent byte of a word.
pub open spec fn word_exponent(w: u32) -> u8 {
    (w / MANTISSA_LIMIT) as u8
}

/// Whether a word stands for a negative value.
pub open spec fn word_negative(w: u32) -> bool {
    w % MANTISSA_LIMIT >= MANTISSA_MIN
}

/// Mantissa of a word, with its top bit restored.
pub open spec fn word_mantissa(w: u32) -> nat {
    if word_negative(w) {
        (w % MANTISSA_LIMIT) as nat
    } else {
        (w % MANTISSA_LIMIT + MANTISSA_MIN) as nat
    }
}

/// `w` encodes `±(p / q) * 2^(base - 152)`, the exponent byte wrapping
/// modulo 256.
pub open spec fn is_encoding(w: u32, negative: bool, p: nat, q: nat, base: int) -> bool {
    exists|s: int, m: nat|
        normal_form(p, q, s, m) && w == xemics_word(negative, ((base - s) % 256) as u8, m)
}

/// Splits a word into its sign, exponent byte and mantissa.
pub fn xemics_parts(w: u32) -> (r: (bool, u8, u32))
    ensures
        r.0 == word_negative(w),
        r.1 == word_exponent(w),
        r.2 == word_mantissa(w),
        MANTISSA_MIN <= r.2 < MANTISSA_LIMIT,
{
    let low = w % MANTISSA_LIMIT;
    let e = (w / MANTISSA_LIMIT) as u8;
    if low >= MANTISSA_MIN {
        (true, e, low)
    } else {
        (false, e, low + MANTISSA_MIN)
    }
}

/// Finds the mantissa and shift of a positive ratio.
fn normalize(p: u128, q: u128) -> (r: (u32, i128))
    requires
        0 < p < RATIO_LIMIT,
        0 < q < RATIO_LIMIT,
    ensures
        normal_form(p as nat, q as nat, r.1 as int, r.0 as nat),
        -0x400000000000000000000000000 < r.1 < 0x400000000000000000000000000,
{
    let mut num: u128 = p;
    let mut den: u128 = q;
    let mut b: u128 = 0;
    assert(two_pow(0) == 1);
    while num >= den * 0x1000000
        invariant
            num == p,
            0 < p < RATIO_LIMIT,
            1 <= den <= 2 * RATIO_LIMIT,
            den == q * two_pow(b as nat),
            b <= den,
            b > 0 ==> num >= den * 0x800000,
        decreases num - den,
    {
        proof {
            assert(q * two_pow((b + 1) as nat) == (q * two_pow(b as nat)) * 2) by (nonlinear_arith)
                requires
                    two_pow((b + 1) as nat) == 2 * two_pow(b as nat),
            ;
        }
        den = den * 2;
        b = b + 1;
    }
    let mut a: u128 = 0;
    while num < den * 0x800000
        invariant
            1 <= den <= 2 * RATIO_LIMIT,
            den == q * two_pow(b as nat),
            num == p * two_pow(a as nat),
            b > 0 ==> num >= den * 0x800000,
            b > 0 ==> a == 0,
            1 <= num < den * 0x1000000,
            a <= num,
            b <= den,
        decreases den * 0x1000000 - num,
    {
        proof {
            assert(p * two_pow((a + 1) as nat) == (p * two_pow(a as nat)) * 2) by (nonlinear_arith)
                requires
                    two_pow((a + 1) as nat) == 2 * two_pow(a as nat),
            ;
        }
        num = num * 2;
        a = a + 1;
    }
    let m128 = num / den;
    proof {
        assert(m128 * den <= num < (m128 + 1) * den) by (nonlinear_arith)
            requires
                den > 0,
                m128 == num / den,
        ;
        assert(0x800000 <= m128 < 0x1000000) by (nonlinear_arith)
            requires
                den > 0,
                m128 * den <= num < (m128 + 1) * den,
                den * 0x800000 <= num < den * 0x1000000,
        ;
    }
    let m = m128 as u32;
    if b == 0 {
        assert(den == q);
        (m, a as i128)
    } else {
        assert(num == p);
        (m, -(b as i128))
    }
}

/// Encodes `±(p / q) * 2^(base - 152)`.
pub fn encode_ratio(negative: bool, p: u128, q: u128, base: i64) -> (r: u32)
    requires
        0 < p < RATIO_LIMIT,
        0 < q < RATIO_LIMIT,
        -0x10000 <= base <= 0x10000,
    ensures
        is_encoding(r, negative, p as nat, q as nat, base as int),
{
    let (m, s) = normalize(p, q);
    let e = (base as i128 - s) % 256;
    let e = if e < 0 { e + 256 } else { e };
    let low = if negative {
        m
    } else {
        m - MANTISSA_MIN
    };
    assert(0 <= e < 256);
    let r = (e as u32) * MANTISSA_LIMIT + low;
    assert(normal_form(p as nat, q as nat, s as int, m as nat));
    assert(r == xemics_word(negative, ((base - s) % 256) as u8, m as nat));
    r
}

} // verus!

verus! {

proof fn lemma_two_pow_positive(n: nat)
    ensures
        1 <= two_pow(n),
    decreases n,
{
    if n > 0 {
        lemma_two_pow_positive((n - 1) as nat);
    }
}

proof fn lemma_two_pow_monotonic(a: nat, b: nat)
    requires
        a <= b,
    ensures
        1 <= two_pow(a) <= two_pow(b),
    decreases b,
{
    lemma_two_pow_positive(a);
    if b > a {
        lemma_two_pow_monotonic(a, (b - 1) as nat);
    }
}

/// Decoding the word that encodes `x = ±p / q`, with `p / q` between
/// 0.001 and 100, gives back the sign of `x` and a magnitude
/// `mantissa * 2^-t` that lies below `p / q` by less than `(p / q) / 2^23`,
/// hence by less than `0.01 * (p / q)` and by less than `0.01`:
/// `|decode(encode(x)) - x| < 0.01 * max(1, |x|)`.
pub proof fn lemma_xemics_round_trip(w: u32, negative: bool, p: nat, q: nat)
    requires
        q > 0,
        q <= 1000 * p,
        p <= 100 * q,
        is_encoding(w, negative, p, q, EXPONENT_BIAS as int),
    ensures
        word_negative(w) == negative,
        word_exponent(w) <= EXPONENT_BIAS,
        ({
            let t = (EXPONENT_BIAS - word_exponent(w)) as nat;
            let m = word_mantissa(w);
            let pt = p * two_pow(t);
            &&& m * q <= pt
            &&& 0x800000 * (pt - m * q) < pt
            &&& 100 * (pt - m * q) < pt
            &&& 100 * (pt - m * q) < q * two_pow(t)
        }),
{
    let (s, m) = choose|s: int, m: nat|
        normal_form(p, q, s, m) && w == xemics_word(negative, ((EXPONENT_BIAS - s) % 256) as u8, m);
    if s < 0 {
        let d = q * two_pow((-s) as nat);
        lemma_two_pow_monotonic(0, (-s) as nat);
        assert(m * d >= 0x800000 * q) by (nonlinear_arith)
            requires
                d == q * two_pow((-s) as nat),
                two_pow((-s) as nat) >= 1,
                m >= 0x800000,
                q > 0,
        ;
        assert(false);
    }
    if s >= 34 {
        lemma_two_pow_monotonic(34, s as nat);
        reveal_with_fuel(two_pow, 35);
        assert(two_pow(34) == 17179869184);
        assert(false) by (nonlinear_arith)
            requires
                p * two_pow(s as nat) < (m + 1) * q,
                m < 0x1000000,
                q <= 1000 * p,
                two_pow(s as nat) >= 17179869184,
                q > 0,
        ;
    }
    let e: nat = (EXPONENT_BIAS - s) as nat;
    assert((EXPONENT_BIAS - s) % 256 == e);
    if negative {
        assert(w == e * 0x1000000 + m);
        assert(w / 0x1000000 == e && w % 0x1000000 == m) by (nonlinear_arith)
            requires
                w == e * 0x1000000 + m,
                0x800000 <= m < 0x1000000,
        ;
    } else {
        let low: nat = (m - 0x800000) as nat;
        assert(w == e * 0x1000000 + low);
        assert(w / 0x1000000 == e && w % 0x1000000 == low) by (nonlinear_arith)
            requires
                w == e * 0x1000000 + low,
                0 <= low < 0x800000,
        ;
    }
    let tp = two_pow(s as nat);
    let pt = p * tp;
    assert(0x800000 * (pt - m * q) < pt && 100 * (pt - m * q) < pt) by (nonlinear_arith)
        requires
            m * q <= pt < (m + 1) * q,
            m >= 0x800000,
            q > 0,
    ;
    assert(pt <= 100 * (q * tp)) by (nonlinear_arith)
        requires
            pt == p * tp,
            p <= 100 * q,
    ;
    assert(100 * (pt - m * q) < q * tp) by (nonlinear_arith)
        requires
            0x800000 * (pt - m * q) < pt,
            pt <= 100 * (q * tp),
            m * q <= pt,
    ;
}

/// Scale of the CC gain: the gain is this many thousandths over the sense resistance.
pub const CC_GAIN_MILLI: u128 = 4768;
/// Scale of the CC delta: the delta is this many tenths over the sense
/// resistance, so the delta is the gain times `CC_DELTA_DECI * 100 / CC_GAIN_MILLI`.
pub const CC_DELTA_DECI: u128 = 56774456;
/// Number of samples whose sum is handed to the rescale.
pub const GAIN_SAMPLES: u128 = 50;
/// Bound on the magnitude of a sum of current samples.
pub const SUM_LIMIT: i64 = 3276750;

/// The encoding of zero's stand-in, 0.00001.
pub open spec fn is_zero_stand_in(w: u32) -> bool {
    is_encoding(w, false, 1, 100000, EXPONENT_BIAS as int)
}

/// What a sense-resistor calibration writes. The old gain `g` (the word
/// `cc_gain`), the mean current reading `sum / 50` and the applied current
/// `a` give the sense resistance `4.768 / g` and the new gain
/// `g * a * 50 / sum`; the new CC gain word encodes that, and the new CC
/// delta word encodes it times `5677445.6 / 4.768`. A zero new gain is
/// encoded as 0.00001.
pub open spec fn rescaled_words(cc_gain: u32, sum: int, applied: int, w: (u32, u32)) -> bool {
    let m0 = word_mantissa(cc_gain) as int;
    let a = if applied < 0 { -applied } else { applied };
    let s = if sum < 0 { -sum } else { sum };
    let negative = (word_negative(cc_gain) != (applied < 0)) != (sum < 0);
    let p = m0 * a * GAIN_SAMPLES;
    if applied == 0 {
        is_zero_stand_in(w.0) && is_zero_stand_in(w.1)
    } else {
        &&& is_encoding(w.0, negative, p as nat, s as nat, word_exponent(cc_gain) as int)
        &&& is_encoding(
            w.1,
            negative,
            (p * 100 * CC_DELTA_DECI) as nat,
            (s * CC_GAIN_MILLI) as nat,
            word_exponent(cc_gain) as int,
        )
    }
}

/// The new CC gain and CC delta words of a sense-resistor calibration;
/// `None` when the samples sum to zero, which leaves nothing to scale by.
pub fn rescale_cc_gain(cc_gain: u32, sample_sum: i64, applied_current: i16) -> (r: Option<(u32, u32)>)
    requires
        -SUM_LIMIT <= sample_sum <= SUM_LIMIT,
    ensures
        sample_sum == 0 <==> r is None,
        r is Some ==> rescaled_words(cc_gain, sample_sum as int, applied_current as int, r->Some_0),
{
    if sample_sum == 0 {
        return None;
    }
    if applied_current == 0 {
        let z = encode_ratio(false, 1, 100000, EXPONENT_BIAS);
        return Some((z, z));
    }
    let (negative0, e0, m0) = xemics_parts(cc_gain);
    let a: u128 = if applied_current < 0 {
        (-(applied_current as i32)) as u128
    } else {
        applied_current as u128
    };
    let s: u128 = if sample_sum < 0 {
        (-sample_sum) as u128
    } else {
        sample_sum as u128
    };
    let negative = (negative0 != (applied_current < 0)) != (sample_sum < 0);
    assert(m0 as u128 * a <= 0x1000000 * 32768) by (nonlinear_arith)
        requires
            m0 < 0x1000000,
            a <= 32768,
    ;
    let p: u128 = m0 as u128 * a * GAIN_SAMPLES;
    assert(0 < p) by (nonlinear_arith)
        requires
            p == m0 * a * 50,
            m0 >= 0x800000,
            a >= 1,
    ;
    let gain = encode_ratio(negative, p, s, e0 as i64);
    let delta = encode_ratio(negative, p * 100 * CC_DELTA_DECI, s * CC_GAIN_MILLI, e0 as i64);
    Some((gain, delta))
}

} // verus!
