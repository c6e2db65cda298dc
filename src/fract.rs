//! Fractions, as used for frame intervals.

use vstd::prelude::*;

use crate::text::{decimal, push_char, push_decimal};

verus! {

/// Greatest common divisor, by Euclid's algorithm.
pub open spec fn gcd_spec(a: nat, b: nat) -> nat
    decreases b,
{
    if b == 0 {
        a
    } else {
        gcd_spec(b, a % b)
    }
}

/// Least common multiple (`0` when both arguments are `0`).
pub open spec fn lcm_spec(a: nat, b: nat) -> nat {
    if gcd_spec(a, b) == 0 {
        0
    } else {
        a * b / gcd_spec(a, b)
    }
}

/// `gcd_spec` never exceeds its first argument when the second is smaller and non-zero, and it
/// is zero only when both arguments are.
pub proof fn lemma_gcd_zero(a: nat, b: nat)
    ensures
        gcd_spec(a, b) == 0 <==> (a == 0 && b == 0),
    decreases b,
{
    if b != 0 {
        lemma_gcd_zero(b, a % b);
    }
}

/// Returns the greatest common divisor of `x` and `y`; `gcd(v, 0) == gcd(0, v) == v`.
pub fn gcd(x: u32, y: u32) -> (r: u32)
    ensures
        r == gcd_spec(x as nat, y as nat),
{
    let mut a: u32 = x;
    let mut b: u32 = y;
    while b > 0
        invariant
            gcd_spec(a as nat, b as nat) == gcd_spec(x as nat, y as nat),
        decreases b,
    {
        let t: u32 = b;
        b = a % b;
        a = t;
    }
    a
}

/// Returns the least common multiple of `a` and `b`.
///
/// At least one argument must be non-zero, and the result must fit in a `u32`.
pub fn lcm(a: u32, b: u32) -> (r: u32)
    requires
        a != 0 || b != 0,
        lcm_spec(a as nat, b as nat) <= u32::MAX,
    ensures
        r == lcm_spec(a as nat, b as nat),
{
    let g: u32 = gcd(a, b);
    proof {
        lemma_gcd_zero(a as nat, b as nat);
        assert((a as nat) * (b as nat) <= u32::MAX as nat * u32::MAX as nat) by (nonlinear_arith)
            requires
                a <= u32::MAX,
                b <= u32::MAX,
        ;
    }
    let p: u64 = (a as u64) * (b as u64);
    (p / (g as u64)) as u32
}

/// The product of two `u32` values fits in a `u64`.
proof fn lemma_u32_product_fits(a: u32, b: u32)
    ensures
        (a as int) * (b as int) <= u64::MAX,
{
    assert((a as int) * (b as int) <= (u32::MAX as int) * (u32::MAX as int)) by (nonlinear_arith)
        requires
            a <= u32::MAX,
            b <= u32::MAX,
            0 <= a,
            0 <= b,
    ;
}

/// A fractional value (`numerator / denominator`) with a non-zero denominator.
///
/// Two fractions compare by their value, not by their representation: `1/2 == 2/4`.
#[derive(Clone, Copy, Hash)]
pub struct Fract {
    numerator: u32,
    denominator: u32,
}

impl View for Fract {
    /// The pair `(numerator, denominator)`.
    type V = (u32, u32);

    closed spec fn view(&self) -> (u32, u32) {
        (self.numerator, self.denominator)
    }
}

/// A fraction written as `numerator/denominator`.
pub open spec fn fract_text(f: (u32, u32)) -> Seq<char> {
    decimal(f.0 as nat) + seq!['/'] + decimal(f.1 as nat)
}

/// `a` and `b` denote the same rational number.
pub open spec fn same_value(a: (u32, u32), b: (u32, u32)) -> bool {
    (a.0 as int) * (b.1 as int) == (b.0 as int) * (a.1 as int)
}

/// How the rational number `a` orders against `b` (both with non-zero denominators).
pub open spec fn value_cmp(a: (u32, u32), b: (u32, u32)) -> core::cmp::Ordering {
    let l = (a.0 as int) * (b.1 as int);
    let r = (b.0 as int) * (a.1 as int);
    if l < r {
        core::cmp::Ordering::Less
    } else if l == r {
        core::cmp::Ordering::Equal
    } else {
        core::cmp::Ordering::Greater
    }
}

impl Fract {
    #[verifier::type_invariant]
    spec fn inv(&self) -> bool {
        self.denominator != 0
    }

    /// Creates the fraction `numerator / denominator`; the denominator must not be zero.
    pub fn new(numerator: u32, denominator: u32) -> (r: Self)
        requires
            denominator != 0,
        ensures
            r@ == (numerator, denominator),
    {
        Fract { numerator, denominator }
    }

    pub fn numerator(&self) -> (r: u32)
        ensures
            r == self@.0,
    {
        self.numerator
    }

    pub fn denominator(&self) -> (r: u32)
        ensures
            r == self@.1,
            r != 0,
    {
        proof {
            use_type_invariant(self);
        }
        self.denominator
    }

    /// The fraction written as `numerator/denominator`.
    pub fn to_string(&self) -> (r: String)
        ensures
            r@ == fract_text(self@),
    {
        let mut s: String = String::new();
        self.write_to(&mut s);
        s
    }

    /// Appends the fraction written as `numerator/denominator`.
    pub fn write_to(&self, s: &mut String)
        ensures
            final(s)@ == old(s)@ + fract_text(self@),
    {
        push_decimal(s, self.numerator);
        push_char(s, '/');
        push_decimal(s, self.denominator);
        proof {
            assert(s@ =~= old(s)@ + fract_text(self@));
        }
    }

    /// Compares the values of two fractions by cross-multiplication, which cannot overflow.
    pub fn compare(&self, other: &Fract) -> (r: core::cmp::Ordering)
        ensures
            r == value_cmp(self@, other@),
    {
        proof {
            lemma_u32_product_fits(self.numerator, other.denominator);
            lemma_u32_product_fits(other.numerator, self.denominator);
        }
        let l: u64 = (self.numerator as u64) * (other.denominator as u64);
        let r: u64 = (other.numerator as u64) * (self.denominator as u64);
        if l < r {
            core::cmp::Ordering::Less
        } else if l == r {
            core::cmp::Ordering::Equal
        } else {
            core::cmp::Ordering::Greater
        }
    }
}

impl PartialEq for Fract {
    fn eq(&self, other: &Fract) -> (r: bool) {
        match self.compare(other) {
            core::cmp::Ordering::Equal => true,
            _ => false,
        }
    }
}

impl vstd::std_specs::cmp::PartialEqSpecImpl for Fract {
    open spec fn obeys_eq_spec() -> bool {
        true
    }

    open spec fn eq_spec(&self, other: &Fract) -> bool {
        same_value(self@, other@)
    }
}

impl Eq for Fract {

}

impl PartialOrd for Fract {
    fn partial_cmp(&self, other: &Fract) -> (r: Option<core::cmp::Ordering>) {
        Some(self.compare(other))
    }
}

impl vstd::std_specs::cmp::PartialOrdSpecImpl for Fract {
    open spec fn obeys_partial_cmp_spec() -> bool {
        true
    }

    open spec fn partial_cmp_spec(&self, other: &Fract) -> Option<core::cmp::Ordering> {
        Some(value_cmp(self@, other@))
    }
}

/// The greatest common divisor is positive and at most `b` when `b` is positive.
pub proof fn lemma_gcd_bounded(a: nat, b: nat)
    requires
        b > 0,
    ensures
        0 < gcd_spec(a, b) <= b,
    decreases b,
{
    assert(gcd_spec(a, b) == gcd_spec(b, a % b));
    assert(a % b < b);
    if a % b != 0 {
        lemma_gcd_bounded(b, a % b);
    } else {
        assert(gcd_spec(b, 0) == b);
    }
}

/// The least common multiple of two positive numbers is positive.
pub proof fn lemma_lcm_positive(a: nat, b: nat)
    requires
        a > 0,
        b > 0,
    ensures
        lcm_spec(a, b) > 0,
{
    lemma_gcd_bounded(a, b);
    let g = gcd_spec(a, b);
    assert(a * b >= b) by (nonlinear_arith)
        requires
            a > 0,
            b > 0,
    ;
    assert((a * b) / g >= 1) by (nonlinear_arith)
        requires
            a * b >= g,
            g > 0,
    ;
}

/// The numerator of `f` rewritten over the denominator `m`, a multiple of its own.
pub open spec fn scaled_numerator(f: (u32, u32), m: nat) -> int {
    (f.0 as int) * ((m / (f.1 as nat)) as int)
}

/// Rewrites two fractions over their least common denominator.
pub fn same_denom(f1: Fract, f2: Fract) -> (r: [Fract; 2])
    requires
        lcm_spec(f1@.1 as nat, f2@.1 as nat) <= u32::MAX,
        scaled_numerator(f1@, lcm_spec(f1@.1 as nat, f2@.1 as nat)) <= u32::MAX,
        scaled_numerator(f2@, lcm_spec(f1@.1 as nat, f2@.1 as nat)) <= u32::MAX,
    ensures
        r[0]@ == (scaled_numerator(f1@, lcm_spec(f1@.1 as nat, f2@.1 as nat)) as u32, lcm_spec(
            f1@.1 as nat,
            f2@.1 as nat,
        ) as u32),
        r[1]@ == (scaled_numerator(f2@, lcm_spec(f1@.1 as nat, f2@.1 as nat)) as u32, lcm_spec(
            f1@.1 as nat,
            f2@.1 as nat,
        ) as u32),
{
    let d1: u32 = f1.denominator();
    let d2: u32 = f2.denominator();
    proof {
        lemma_lcm_positive(d1 as nat, d2 as nat);
    }
    let multiple: u32 = lcm(d1, d2);
    let n1: u32 = f1.numerator() * (multiple / d1);
    let n2: u32 = f2.numerator() * (multiple / d2);
    [Fract::new(n1, multiple), Fract::new(n2, multiple)]
}

} // verus!
