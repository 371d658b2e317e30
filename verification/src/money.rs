//! Exact money: whole numbers of hundredths, their two-decimal text, and the
//! quotient of two amounts to the nearest hundredth.

use vstd::prelude::*;
use vstd::string::*;
use vstd::arithmetic::div_mod::lemma_fundamental_div_mod;
use vstd::arithmetic::div_mod::lemma_fundamental_div_mod_converse;
use crate::text::{decimal, two_digits, decimal_string, two_digit_string};

verus! {

/// The absolute value of `v`.
pub open spec fn abs(v: int) -> int {
    if v < 0 {
        -v
    } else {
        v
    }
}

/// The two-decimal text of `v` hundredths: a minus sign if `v` is negative,
/// the whole units, a point, and two digits.
pub open spec fn hundredths_text(v: int) -> Seq<char> {
    let sign = if v < 0 {
        seq!['-']
    } else {
        Seq::<char>::empty()
    };
    sign + decimal((abs(v) / 100) as nat) + seq!['.'] + two_digits((abs(v) % 100) as nat)
}

/// The integer nearest to `num / den`; where two are equally near, the even
/// one.
pub open spec fn nearest(num: int, den: int) -> int
    recommends
        den > 0,
{
    let q = num / den;
    let r = num % den;
    if 2 * r < den {
        q
    } else if 2 * r > den {
        q + 1
    } else if q % 2 == 0 {
        q
    } else {
        q + 1
    }
}

/// `num / den` in hundredths, to the nearest hundredth.
pub open spec fn ratio_hundredths(num: int, den: int) -> int
    recommends
        den > 0,
{
    nearest(num * 100, den)
}

/// Rounding to the nearest integer commutes with negation.
pub proof fn nearest_of_negation(num: int, den: int)
    requires
        den > 0,
    ensures
        nearest(-num, den) == -nearest(num, den),
{
    let q = num / den;
    let r = num % den;
    lemma_fundamental_div_mod(num, den);
    assert(den * q == q * den) by (nonlinear_arith);
    if r == 0 {
        assert(-num == (-q) * den + 0) by (nonlinear_arith)
            requires
                num == q * den + r,
                r == 0,
        ;
        lemma_fundamental_div_mod_converse(-num, den, -q, 0);
    } else {
        assert(-num == (-q - 1) * den + (den - r)) by (nonlinear_arith)
            requires
                num == q * den + r,
        ;
        lemma_fundamental_div_mod_converse(-num, den, -q - 1, den - r);
    }
}

/// The absolute value of `v`, which always fits.
pub fn magnitude(v: i128) -> (m: u128)
    ensures
        m == abs(v as int),
{
    if v >= 0 {
        v as u128
    } else if v == i128::MIN {
        (i128::MAX as u128) + 1
    } else {
        (-v) as u128
    }
}

/// A signed quantity with two decimal places, held as sign, whole units and
/// hundredths.
#[derive(Clone, Copy, Debug, PartialEq, Eq)]
pub struct Hundredths {
    negative: bool,
    whole: u128,
    hundredths: u8,
}

impl Hundredths {
    #[verifier::type_invariant]
    spec fn inv(&self) -> bool {
        &&& self.hundredths < 100
        &&& self.negative ==> self.whole > 0 || self.hundredths > 0
    }

    /// The quantity as a number of hundredths.
    pub closed spec fn value(&self) -> int {
        let m = self.whole * 100 + self.hundredths;
        if self.negative {
            -m
        } else {
            m
        }
    }

    /// Whether the quantity is below zero.
    pub fn negative(&self) -> (r: bool)
        ensures
            r == (self.value() < 0),
    {
        proof {
            use_type_invariant(self);
        }
        self.negative
    }

    /// The whole units of the absolute value.
    pub fn whole(&self) -> (r: u128)
        ensures
            r == abs(self.value()) / 100,
    {
        proof {
            use_type_invariant(self);
            lemma_fundamental_div_mod_converse(
                self.whole * 100 + self.hundredths,
                100,
                self.whole as int,
                self.hundredths as int,
            );
        }
        self.whole
    }

    /// The hundredths of the absolute value, below 100.
    pub fn hundredths(&self) -> (r: u8)
        ensures
            r == abs(self.value()) % 100,
    {
        proof {
            use_type_invariant(self);
            lemma_fundamental_div_mod_converse(
                self.whole * 100 + self.hundredths,
                100,
                self.whole as int,
                self.hundredths as int,
            );
        }
        self.hundredths
    }

    /// The quantity of `v` hundredths.
    pub fn from_cents(v: i128) -> (r: Hundredths)
        ensures
            r.value() == v,
    {
        let m = magnitude(v);
        Hundredths { negative: v < 0, whole: m / 100, hundredths: (m % 100) as u8 }
    }

    /// `num / den` to the nearest hundredth, ties to the even hundredth.
    pub fn ratio(num: i128, den: i64) -> (r: Hundredths)
        requires
            den > 0,
        ensures
            r.value() == ratio_hundredths(num as int, den as int),
    {
        let a = magnitude(num);
        let t = den as u128;
        let q = a / t;
        let rem = a % t;
        let x = rem * 100;
        let h = x / t;
        let rr = x % t;
        proof {
            let ai = a as int;
            let ti = t as int;
            lemma_fundamental_div_mod(ai, ti);
            lemma_fundamental_div_mod(x as int, ti);
            assert(h < 100) by (nonlinear_arith)
                requires
                    x == t * h + rr,
                    x == rem * 100,
                    rem < t,
                    rr >= 0,
            ;
            assert(ai * 100 == (q * 100 + h) * ti + rr) by (nonlinear_arith)
                requires
                    ai == ti * q + rem,
                    x == ti * h + rr,
                    x == rem * 100,
            ;
            lemma_fundamental_div_mod_converse(ai * 100, ti, q * 100 + h, rr as int);
            assert(q <= a) by (nonlinear_arith)
                requires
                    ai == ti * q + rem,
                    ti >= 1,
                    q >= 0,
                    rem >= 0,
                    ai == a,
            ;
            assert((q * 100 + h) % 2 == h % 2) by {
                assert(q * 100 + h == 2 * (q * 50) + h);
                vstd::arithmetic::div_mod::lemma_mod_multiples_vanish(q * 50, h as int, 2);
            }
            if num < 0 {
                nearest_of_negation(ai * 100, ti);
            }
        }
        let up = 2 * rr > t || (2 * rr == t && h % 2 == 1);
        let (whole, hundredths) = if !up {
            (q, h as u8)
        } else if h + 1 == 100 {
            (q + 1, 0u8)
        } else {
            (q, (h + 1) as u8)
        };
        let negative = num < 0 && (whole > 0 || hundredths > 0);
        Hundredths { negative, whole, hundredths }
    }

    /// The two-decimal text of the quantity.
    pub fn text(&self) -> (s: String)
        ensures
            s@ == hundredths_text(self.value()),
    {
        let mut s = if self.negative {
            "-".to_owned()
        } else {
            String::new()
        };
        let w = decimal_string(self.whole);
        let f = two_digit_string(self.hundredths);
        s.append(w.as_str());
        s.append(".");
        s.append(f.as_str());
        proof {
            use_type_invariant(self);
            reveal_strlit("-");
            reveal_strlit(".");
            let v = self.value();
            let m = self.whole * 100 + self.hundredths;
            assert(abs(v) == m);
            lemma_fundamental_div_mod_converse(m, 100, self.whole as int, self.hundredths as int);
            assert("-"@ =~= seq!['-']);
            assert("."@ =~= seq!['.']);
            assert(s@ =~= hundredths_text(v));
        }
        s
    }
}

/// Writes `v` hundredths with two decimals.
pub fn format_cents(v: i128) -> (s: String)
    ensures
        s@ == hundredths_text(v as int),
{
    Hundredths::from_cents(v).text()
}

} // verus!
