//! Non-negative decimal numbers and their one canonical rendering.

use crate::text::{dec_text, digit_char, u64_to_string};
use vstd::prelude::*;
use vstd::string::*;

verus! {

/// The decimal number `mantissa / 10^scale`.
#[derive(Clone, Copy, Debug, PartialEq, Eq)]
pub struct Decimal {
    pub mantissa: u64,
    pub scale: u8,
}

/// `m` without its last `s` decimal digits: the integer part of `m / 10^s`.
pub open spec fn int_part(m: nat, s: nat) -> nat
    decreases s,
{
    if s == 0 {
        m
    } else {
        int_part(m / 10, (s - 1) as nat)
    }
}

/// The last `s` decimal digits of `m`, with leading zeros where `m` is short.
pub open spec fn frac_text(m: nat, s: nat) -> Seq<char>
    decreases s,
{
    if s == 0 {
        Seq::empty()
    } else {
        frac_text(m / 10, (s - 1) as nat).push(digit_char(m % 10))
    }
}

/// The canonical rendering of `m / 10^s`: trailing zeros of the fraction are
/// dropped first; a whole number has no point; otherwise the integer part, a
/// point and the digits of the fraction.
pub open spec fn decimal_text(m: nat, s: nat) -> Seq<char>
    decreases s,
{
    if s == 0 {
        dec_text(m)
    } else if m % 10 == 0 {
        decimal_text(m / 10, (s - 1) as nat)
    } else {
        dec_text(int_part(m, s)) + seq!['.'] + frac_text(m, s)
    }
}

/// A trailing zero changes nothing: `10 m / 10^(s+1)` is rendered as
/// `m / 10^s` is.
pub proof fn lemma_trailing_zero(m: nat, s: nat)
    ensures
        decimal_text(10 * m, s + 1) == decimal_text(m, s),
{
    assert((10 * m) % 10 == 0);
    assert((10 * m) / 10 == m);
}

/// Ten to the power `n`.
pub open spec fn pow10(n: nat) -> nat
    decreases n,
{
    if n == 0 {
        1
    } else {
        10 * pow10((n - 1) as nat)
    }
}

/// Whether `m1 / 10^s1` and `m2 / 10^s2` are the same number.
pub open spec fn same_value(m1: nat, s1: nat, m2: nat, s2: nat) -> bool {
    m1 * pow10(s2) == m2 * pow10(s1)
}

/// Powers of ten multiply as their exponents add, and none is zero.
pub proof fn lemma_pow10_adds(a: nat, b: nat)
    ensures
        pow10(a + b) == pow10(a) * pow10(b),
        pow10(a) > 0,
    decreases a,
{
    if a > 0 {
        let x = pow10((a - 1) as nat);
        let y = pow10(b);
        lemma_pow10_adds((a - 1) as nat, b);
        assert(((a - 1) as nat) + b == (a + b - 1) as nat);
        assert(pow10(a + b) == 10 * pow10((a + b - 1) as nat));
        assert(pow10(a) == 10 * x);
        assert(10 * (x * y) == (10 * x) * y) by (nonlinear_arith);
    } else {
        assert(pow10(a + b) == pow10(b));
        assert(1 * pow10(b) == pow10(b));
    }
}

/// Any number of trailing zeros changes nothing: `m 10^k / 10^(s+k)` is
/// rendered as `m / 10^s` is.
pub proof fn lemma_scaled(m: nat, s: nat, k: nat)
    ensures
        decimal_text(m * pow10(k), s + k) == decimal_text(m, s),
    decreases k,
{
    if k > 0 {
        let p = pow10((k - 1) as nat);
        lemma_scaled(m, s, (k - 1) as nat);
        assert(m * (10 * p) == 10 * (m * p)) by (nonlinear_arith);
        lemma_trailing_zero(m * p, (s + k - 1) as nat);
    } else {
        assert(m * 1 == m);
    }
}

/// A number has one rendering: two pairs of mantissa and scale that stand
/// for the same number are rendered alike.
pub proof fn lemma_same_value_same_text(m1: nat, s1: nat, m2: nat, s2: nat)
    requires
        same_value(m1, s1, m2, s2),
    ensures
        decimal_text(m1, s1) == decimal_text(m2, s2),
{
    if s1 <= s2 {
        let k = (s2 - s1) as nat;
        lemma_pow10_adds(s1, k);
        let a = pow10(s1);
        let b = pow10(k);
        assert(m1 * b == m2) by (nonlinear_arith)
            requires
                m1 * (a * b) == m2 * a,
                a > 0,
        ;
        lemma_scaled(m1, s1, k);
    } else {
        let k = (s1 - s2) as nat;
        lemma_pow10_adds(s2, k);
        let a = pow10(s2);
        let b = pow10(k);
        assert(m2 * b == m1) by (nonlinear_arith)
            requires
                m2 * (a * b) == m1 * a,
                a > 0,
        ;
        lemma_scaled(m2, s2, k);
    }
}

fn int_part_of(m: u64, s: u8) -> (r: u64)
    ensures
        r == int_part(m as nat, s as nat),
    decreases s,
{
    if s == 0 {
        m
    } else {
        int_part_of(m / 10, s - 1)
    }
}

fn frac_string(m: u64, s: u8) -> (t: String)
    ensures
        t@ == frac_text(m as nat, s as nat),
    decreases s,
{
    if s == 0 {
        String::new()
    } else {
        let mut t: String = frac_string(m / 10, s - 1);
        let d: String = u64_to_string(m % 10);
        t.append(d.as_str());
        assert(t@ =~= frac_text(m as nat, s as nat));
        t
    }
}

impl Decimal {
    /// The rendering of this number.
    pub open spec fn text(&self) -> Seq<char> {
        decimal_text(self.mantissa as nat, self.scale as nat)
    }

    /// Whether this and `other` are the same number.
    pub open spec fn same_value_as(&self, other: &Decimal) -> bool {
        same_value(
            self.mantissa as nat,
            self.scale as nat,
            other.mantissa as nat,
            other.scale as nat,
        )
    }

    /// The number `mantissa / 10^scale`.
    pub fn new(mantissa: u64, scale: u8) -> (d: Decimal)
        ensures
            d.mantissa == mantissa,
            d.scale == scale,
    {
        Decimal { mantissa, scale }
    }

    /// The whole number `n`.
    pub fn from_integer(n: u64) -> (d: Decimal)
        ensures
            d.mantissa == n,
            d.scale == 0,
            d.text() == dec_text(n as nat),
    {
        Decimal { mantissa: n, scale: 0 }
    }

    /// Renders the number canonically.
    pub fn to_text(&self) -> (t: String)
        ensures
            t@ == self.text(),
    {
        let mut m: u64 = self.mantissa;
        let mut s: u8 = self.scale;
        while s > 0 && m % 10 == 0
            invariant
                decimal_text(m as nat, s as nat) == self.text(),
            decreases s,
        {
            m = m / 10;
            s = s - 1;
        }
        if s == 0 {
            u64_to_string(m)
        } else {
            let mut t: String = u64_to_string(int_part_of(m, s));
            let f: String = frac_string(m, s);
            proof {
                reveal_strlit(".");
                assert("."@ =~= seq!['.']);
            }
            t.append(".");
            t.append(f.as_str());
            t
        }
    }
}

} // verus!
