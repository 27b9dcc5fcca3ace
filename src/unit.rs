//! The monomial term `coef * x^xpow * y^ypow`.

use crate::integer::{int_decimal, Integer};
use crate::model::{coef_tokens, join_spaced, power_token, power_tokens, Monomial};
use core::cmp::Ordering;
use vstd::arithmetic::power::pow;
use vstd::prelude::*;

verus! {

/// A monomial `coef * x^xpow * y^ypow`. Exponents may be negative, and a zero
/// coefficient is the zero term whatever the exponents. `==` compares all
/// three fields; the order (`cmp`, `<`) looks at the exponents alone, so two
/// terms that differ only in their coefficients are ordered equal.
#[derive(Debug)]
pub struct Unit {
    pub coef: Integer,
    pub xpow: Integer,
    pub ypow: Integer,
}

impl View for Unit {
    type V = Monomial;

    open spec fn view(&self) -> Monomial {
        Monomial { coef: self.coef@, xpow: self.xpow@, ypow: self.ypow@ }
    }
}

/// Why an operation on terms has no result.
#[derive(Debug, Clone, Copy, PartialEq, Eq, Structural)]
pub enum UnitError {
    /// The divisor's coefficient is zero.
    DivisionByZero,
    /// The modulus is zero.
    InvalidModulus,
}

/// Appends one part to the text built so far, after a space unless it is the
/// first.
fn push_token(out: &mut String, first: bool, tok: &str, Ghost(toks): Ghost<Seq<Seq<char>>>)
    requires
        old(out)@ == join_spaced(toks),
        first == (toks.len() == 0),
    ensures
        final(out)@ == join_spaced(toks.push(tok@)),
{
    proof {
        reveal_strlit(" ");
        assert(toks.push(tok@).drop_last() =~= toks);
    }
    if !first {
        out.append(" ");
    }
    out.append(tok);
    proof {
        if first {
            assert(out@ =~= tok@);
        }
    }
}

/// The text of one exponent part.
fn power_text(sym: &str, e: &Integer) -> (r: String)
    requires
        sym@.len() == 1,
    ensures
        r@ == power_token(sym@[0], e@),
{
    let one = Integer::from_i64(1);
    let mut s = String::from_str(sym);
    if *e != one {
        s.append("^");
        let d = e.big_to_string();
        s.append(d.as_str());
    }
    proof {
        reveal_strlit("^");
        if e@ == 1 {
            assert(s@ =~= seq![sym@[0]]);
        } else {
            assert(s@ =~= seq![sym@[0], '^'] + int_decimal(e@));
        }
    }
    s
}

impl Unit {
    /// The product: coefficients multiply, exponents add.
    pub fn multiply(&self, other: &Unit) -> (r: Unit)
        ensures
            r@ == self@.mul(other@),
    {
        Unit {
            coef: self.coef.big_mul(&other.coef),
            xpow: self.xpow.big_add(&other.xpow),
            ypow: self.ypow.big_add(&other.ypow),
        }
    }

    /// The quotient: coefficients divide rounding toward zero, exponents
    /// subtract. Fails on a zero divisor coefficient.
    pub fn divide(&self, other: &Unit) -> (r: Result<Unit, UnitError>)
        ensures
            r is Err <==> other@.coef == 0,
            r matches Ok(q) ==> q@ == self@.div(other@),
            r matches Err(e) ==> e == UnitError::DivisionByZero,
    {
        if other.coef == Integer::from_i64(0) {
            return Err(UnitError::DivisionByZero);
        }
        Ok(
            Unit {
                coef: self.coef.big_div(&other.coef),
                xpow: self.xpow.big_sub(&other.xpow),
                ypow: self.ypow.big_sub(&other.ypow),
            },
        )
    }

    /// The term with its coefficient negated.
    pub fn negate(&self) -> (r: Unit)
        ensures
            r@ == self@.neg(),
    {
        Unit { coef: self.coef.big_neg(), xpow: self.xpow.clone(), ypow: self.ypow.clone() }
    }

    /// Whether the two terms have the same exponents (like terms).
    pub fn equal_order(&self, other: &Self) -> (r: bool)
        ensures
            r == self@.same_order(other@),
    {
        self.xpow == other.xpow && self.ypow == other.ypow
    }

    /// The `val`-th power: the coefficient raised to `val`, exponents times
    /// `val`. The zeroth power is one, also of the zero term.
    pub fn power(&self, val: usize) -> (r: Self)
        ensures
            r@ == self@.power(val as nat),
            val == 0 ==> r@ == (Monomial { coef: 1, xpow: 0, ypow: 0 }),
    {
        let coef = self.coef.big_pow(val);
        let xpow = self.xpow.big_mul_usize(val);
        let ypow = self.ypow.big_mul_usize(val);
        proof {
            if val == 0 {
                reveal(pow);
            }
        }
        Unit { coef: coef, xpow: xpow, ypow: ypow }
    }

    /// Exponents times `val`, the coefficient kept.
    pub fn to_frob(&self, val: usize) -> (r: Self)
        ensures
            r@ == self@.frob(val as nat),
            r.coef@ == self.coef@,
            val == 1 ==> r@ == self@,
    {
        Unit {
            coef: self.coef.clone(),
            xpow: self.xpow.big_mul_usize(val),
            ypow: self.ypow.big_mul_usize(val),
        }
    }

    /// The coefficient reduced by `val`, with the sign of the coefficient; the
    /// exponents kept. Fails on a zero modulus.
    pub fn modular(&self, val: Integer) -> (r: Result<Unit, UnitError>)
        ensures
            r is Err <==> val@ == 0,
            r matches Ok(u) ==> u@ == self@.rem(val@),
            r matches Err(e) ==> e == UnitError::InvalidModulus,
    {
        if val == Integer::from_i64(0) {
            return Err(UnitError::InvalidModulus);
        }
        Ok(Unit { coef: self.coef.big_rem(&val), xpow: self.xpow.clone(), ypow: self.ypow.clone() })
    }

    /// Whether this is the zero term.
    pub fn is_zero(&self) -> (r: bool)
        ensures
            r == self@.is_zero(),
    {
        self.coef == Integer::from_i64(0)
    }

    /// Whether `y` occurs with a nonzero exponent.
    pub fn has_y(&self) -> (r: bool)
        ensures
            r == self@.has_y(),
    {
        self.ypow != Integer::from_i64(0)
    }

    /// Order by `xpow`, then by `ypow`; the coefficient plays no part.
    pub fn cmp(&self, other: &Self) -> (r: Ordering)
        ensures
            r == self@.compare(other@),
    {
        match self.xpow.big_cmp(&other.xpow) {
            Ordering::Less => Ordering::Less,
            Ordering::Greater => Ordering::Greater,
            Ordering::Equal => self.ypow.big_cmp(&other.ypow),
        }
    }

    /// The canonical text of the term: parts separated by single spaces, the
    /// coefficient first (`- ` before the magnitude of a negative one, a unit
    /// coefficient left out unless nothing else is shown), then `x` and `y`
    /// parts for nonzero exponents.
    pub fn to_string(&self) -> (r: String)
        ensures
            r@ == self@.text(),
    {
        let zero = Integer::from_i64(0);
        let one = Integer::from_i64(1);
        let minus_one = Integer::from_i64(-1);
        let bare = self.xpow == zero && self.ypow == zero;
        let mut out = String::new();
        let mut first = true;
        let ghost mut toks: Seq<Seq<char>> = Seq::empty();
        proof {
            reveal_strlit("-");
            reveal_strlit("1");
            reveal_strlit("x");
            reveal_strlit("y");
            assert("-"@ =~= seq!['-']);
            assert("1"@ =~= seq!['1']);
        }
        if self.coef == one {
            if bare {
                push_token(&mut out, first, "1", Ghost(toks));
                proof {
                    toks = toks.push("1"@);
                }
                first = false;
            }
        } else if self.coef == minus_one {
            push_token(&mut out, first, "-", Ghost(toks));
            proof {
                toks = toks.push("-"@);
            }
            first = false;
            if bare {
                push_token(&mut out, first, "1", Ghost(toks));
                proof {
                    toks = toks.push("1"@);
                }
            }
        } else if matches!(self.coef.big_cmp(&zero), core::cmp::Ordering::Less) {
            push_token(&mut out, first, "-", Ghost(toks));
            proof {
                toks = toks.push("-"@);
            }
            first = false;
            let d = self.coef.big_neg().big_to_string();
            push_token(&mut out, first, d.as_str(), Ghost(toks));
            proof {
                toks = toks.push(d@);
            }
        } else {
            let d = self.coef.big_to_string();
            push_token(&mut out, first, d.as_str(), Ghost(toks));
            proof {
                toks = toks.push(d@);
            }
            first = false;
        }
        assert(toks =~= coef_tokens(self.coef@, bare));
        let ghost ctoks = toks;
        if self.xpow != zero {
            let t = power_text("x", &self.xpow);
            push_token(&mut out, first, t.as_str(), Ghost(toks));
            proof {
                toks = toks.push(t@);
            }
            first = false;
        }
        if self.ypow != zero {
            let t = power_text("y", &self.ypow);
            push_token(&mut out, first, t.as_str(), Ghost(toks));
            proof {
                toks = toks.push(t@);
            }
        }
        assert(toks =~= ctoks + power_tokens(self.xpow@, self.ypow@));
        out
    }
}

impl Default for Unit {
    /// The zero term: every field zero.
    fn default() -> (r: Unit)
        ensures
            r@ == (Monomial { coef: 0, xpow: 0, ypow: 0 }),
    {
        Unit { coef: Integer::from_i64(0), xpow: Integer::from_i64(0), ypow: Integer::from_i64(0) }
    }
}

impl Clone for Unit {
    fn clone(&self) -> (r: Unit)
        ensures
            r@ == self@,
    {
        Unit { coef: self.coef.clone(), xpow: self.xpow.clone(), ypow: self.ypow.clone() }
    }
}

impl PartialEq for Unit {
    fn eq(&self, other: &Unit) -> (r: bool) {
        self.coef == other.coef && self.xpow == other.xpow && self.ypow == other.ypow
    }
}

impl vstd::std_specs::cmp::PartialEqSpecImpl for Unit {
    open spec fn obeys_eq_spec() -> bool {
        true
    }

    open spec fn eq_spec(&self, other: &Unit) -> bool {
        self@ == other@
    }
}

impl Eq for Unit {
}

impl PartialOrd for Unit {
    fn partial_cmp(&self, other: &Unit) -> (r: Option<Ordering>) {
        Some(self.cmp(other))
    }
}

impl vstd::std_specs::cmp::PartialOrdSpecImpl for Unit {
    open spec fn obeys_partial_cmp_spec() -> bool {
        true
    }

    open spec fn partial_cmp_spec(&self, other: &Unit) -> Option<Ordering> {
        Some(self@.compare(other@))
    }
}

impl core::ops::Mul for Unit {
    type Output = Unit;

    fn mul(self, other: Unit) -> (r: Unit)
        ensures
            r@ == self@.mul(other@),
    {
        self.multiply(&other)
    }
}

impl vstd::std_specs::ops::MulSpecImpl for Unit {
    /// The result is stated by the method's own `ensures`.
    open spec fn obeys_mul_spec() -> bool {
        false
    }

    open spec fn mul_req(self, other: Unit) -> bool {
        true
    }

    open spec fn mul_spec(self, other: Unit) -> Unit {
        vstd::pervasive::arbitrary()
    }
}

impl<'a> core::ops::Mul<&'a Unit> for &'a Unit {
    type Output = Unit;

    fn mul(self, other: &'a Unit) -> (r: Unit)
        ensures
            r@ == self@.mul(other@),
    {
        self.multiply(other)
    }
}

impl<'a> vstd::std_specs::ops::MulSpecImpl<&'a Unit> for &'a Unit {
    /// The result is stated by the method's own `ensures`.
    open spec fn obeys_mul_spec() -> bool {
        false
    }

    open spec fn mul_req(self, other: &'a Unit) -> bool {
        true
    }

    open spec fn mul_spec(self, other: &'a Unit) -> Unit {
        vstd::pervasive::arbitrary()
    }
}

impl core::ops::Neg for Unit {
    type Output = Unit;

    fn neg(self) -> (r: Unit)
        ensures
            r@ == self@.neg(),
    {
        self.negate()
    }
}

impl vstd::std_specs::ops::NegSpecImpl for Unit {
    /// The result is stated by the method's own `ensures`.
    open spec fn obeys_neg_spec() -> bool {
        false
    }

    open spec fn neg_req(self) -> bool {
        true
    }

    open spec fn neg_spec(self) -> Unit {
        vstd::pervasive::arbitrary()
    }
}

} // verus!
