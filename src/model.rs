//! The mathematical model of a term: three unbounded integers, the operations
//! on them, the canonical text, and the laws that hold of them.

use crate::integer::{int_decimal, nat_decimal, trunc_div, trunc_rem};
use core::cmp::Ordering;
use vstd::arithmetic::power::pow;
use vstd::prelude::*;

verus! {

/// The value `coef * x^xpow * y^ypow`.
pub struct Monomial {
    pub coef: int,
    pub xpow: int,
    pub ypow: int,
}

impl Monomial {
    /// Product: coefficients multiply, exponents add.
    pub open spec fn mul(self, other: Monomial) -> Monomial {
        Monomial {
            coef: self.coef * other.coef,
            xpow: self.xpow + other.xpow,
            ypow: self.ypow + other.ypow,
        }
    }

    /// Quotient: coefficients divide rounding toward zero, exponents subtract.
    pub open spec fn div(self, other: Monomial) -> Monomial
        recommends
            other.coef != 0,
    {
        Monomial {
            coef: trunc_div(self.coef, other.coef),
            xpow: self.xpow - other.xpow,
            ypow: self.ypow - other.ypow,
        }
    }

    /// The coefficient negated.
    pub open spec fn neg(self) -> Monomial {
        Monomial { coef: -self.coef, ..self }
    }

    /// The `n`-th power: `coef^n`, exponents times `n`.
    pub open spec fn power(self, n: nat) -> Monomial {
        Monomial { coef: pow(self.coef, n), xpow: self.xpow * n, ypow: self.ypow * n }
    }

    /// Exponents times `n`, the coefficient kept.
    pub open spec fn frob(self, n: nat) -> Monomial {
        Monomial { coef: self.coef, xpow: self.xpow * n, ypow: self.ypow * n }
    }

    /// The coefficient replaced by its remainder modulo `m`, which takes the
    /// sign of the coefficient (division rounded toward zero).
    pub open spec fn rem(self, m: int) -> Monomial
        recommends
            m != 0,
    {
        Monomial { coef: trunc_rem(self.coef, m), ..self }
    }

    /// The zero term: a zero coefficient, whatever the exponents.
    pub open spec fn is_zero(self) -> bool {
        self.coef == 0
    }

    pub open spec fn has_y(self) -> bool {
        self.ypow != 0
    }

    /// Like terms: the same exponents, whatever the coefficients.
    pub open spec fn same_order(self, other: Monomial) -> bool {
        self.xpow == other.xpow && self.ypow == other.ypow
    }

    /// Order by `xpow`, then by `ypow`; the coefficient plays no part.
    pub open spec fn compare(self, other: Monomial) -> Ordering {
        if self.xpow < other.xpow {
            Ordering::Less
        } else if self.xpow > other.xpow {
            Ordering::Greater
        } else if self.ypow < other.ypow {
            Ordering::Less
        } else if self.ypow > other.ypow {
            Ordering::Greater
        } else {
            Ordering::Equal
        }
    }

    /// The canonical text of the term.
    pub open spec fn text(self) -> Seq<char> {
        join_spaced(
            coef_tokens(self.coef, self.xpow == 0 && self.ypow == 0) + power_tokens(
                self.xpow,
                self.ypow,
            ),
        )
    }
}

/// One rendered exponent part: the bare symbol for exponent one, else
/// `symbol^exponent`.
pub open spec fn power_token(sym: char, e: int) -> Seq<char> {
    if e == 1 {
        seq![sym]
    } else {
        seq![sym, '^'] + int_decimal(e)
    }
}

/// The exponent parts of a term, `x` before `y`; a zero exponent has none.
pub open spec fn power_tokens(xpow: int, ypow: int) -> Seq<Seq<char>> {
    let xs = if xpow != 0 {
        seq![power_token('x', xpow)]
    } else {
        Seq::empty()
    };
    let ys = if ypow != 0 {
        seq![power_token('y', ypow)]
    } else {
        Seq::empty()
    };
    xs + ys
}

/// The coefficient parts of a term; `bare` says that both exponents are zero.
/// A unit coefficient shows only where nothing else would.
pub open spec fn coef_tokens(coef: int, bare: bool) -> Seq<Seq<char>> {
    if coef == 1 {
        if bare {
            seq![seq!['1']]
        } else {
            Seq::empty()
        }
    } else if coef == -1 {
        if bare {
            seq![seq!['-'], seq!['1']]
        } else {
            seq![seq!['-']]
        }
    } else if coef < 0 {
        seq![seq!['-'], nat_decimal((-coef) as nat)]
    } else {
        seq![nat_decimal(coef as nat)]
    }
}

/// The parts joined by single spaces.
pub open spec fn join_spaced(t: Seq<Seq<char>>) -> Seq<char>
    decreases t.len(),
{
    if t.len() == 0 {
        Seq::empty()
    } else if t.len() == 1 {
        t[0]
    } else {
        join_spaced(t.drop_last()) + seq![' '] + t.last()
    }
}


/// Joining two non-empty lists of parts puts one space between them.
pub proof fn lemma_join_spaced_append(a: Seq<Seq<char>>, b: Seq<Seq<char>>)
    requires
        a.len() > 0,
        b.len() > 0,
    ensures
        join_spaced(a + b) == join_spaced(a) + seq![' '] + join_spaced(b),
    decreases b.len(),
{
    assert((a + b).drop_last() =~= a + b.drop_last());
    if b.len() == 1 {
        assert(a + b.drop_last() =~= a);
    } else {
        lemma_join_spaced_append(a, b.drop_last());
        assert(join_spaced(a + b) =~= join_spaced(a) + seq![' '] + join_spaced(b));
    }
}

/// Having the same exponents is an equivalence: reflexive, symmetric and
/// transitive.
pub proof fn lemma_same_order_equivalence(a: Monomial, b: Monomial, c: Monomial)
    ensures
        a.same_order(a),
        a.same_order(b) ==> b.same_order(a),
        a.same_order(b) && b.same_order(c) ==> a.same_order(c),
{
}

/// Whether two terms have the same exponents does not depend on the
/// coefficients, zero or not.
pub proof fn lemma_same_order_ignores_coef(a: Monomial, b: Monomial, k: int, l: int)
    ensures
        a.same_order(b) <==> (Monomial { coef: k, ..a }).same_order(Monomial { coef: l, ..b }),
        a.same_order(b) <==> (a.xpow == b.xpow && a.ypow == b.ypow),
{
}

/// The order of terms ranks two terms equal exactly when they have the same
/// exponents, whatever their coefficients.
pub proof fn lemma_compare_equal_iff_same_order(a: Monomial, b: Monomial)
    ensures
        a.same_order(b) <==> a.compare(b) == Ordering::Equal,
{
}

/// A term with coefficient one or minus one and some nonzero exponent shows no
/// coefficient digit: only the exponent parts, after `- ` for minus one.
pub proof fn lemma_text_unit_coefficient(a: Monomial)
    requires
        a.coef == 1 || a.coef == -1,
        a.xpow != 0 || a.ypow != 0,
    ensures
        a.coef == 1 ==> a.text() == join_spaced(power_tokens(a.xpow, a.ypow)),
        a.coef == -1 ==> a.text() == seq!['-', ' '] + join_spaced(power_tokens(a.xpow, a.ypow)),
{
    let p = power_tokens(a.xpow, a.ypow);
    if a.coef == 1 {
        assert(coef_tokens(a.coef, false) + p =~= p);
    } else {
        lemma_join_spaced_append(seq![seq!['-']], p);
        assert(join_spaced(seq![seq!['-']]) == seq!['-']);
        assert(seq!['-'] + seq![' '] + join_spaced(p) =~= seq!['-', ' '] + join_spaced(p));
    }
}

/// A term whose coefficient is neither zero nor a unit starts with the
/// magnitude of its coefficient, after `- ` when it is negative, followed by
/// the exponent parts.
pub proof fn lemma_text_other_coefficient(a: Monomial)
    requires
        a.coef < -1 || a.coef > 1,
    ensures
        ({
            let lead = if a.coef < 0 {
                seq!['-', ' '] + nat_decimal((-a.coef) as nat)
            } else {
                nat_decimal(a.coef as nat)
            };
            let p = power_tokens(a.xpow, a.ypow);
            &&& p.len() == 0 ==> a.text() == lead
            &&& p.len() > 0 ==> a.text() == lead + seq![' '] + join_spaced(p)
        }),
{
    let c = coef_tokens(a.coef, a.xpow == 0 && a.ypow == 0);
    let p = power_tokens(a.xpow, a.ypow);
    if a.coef < 0 {
        let d = nat_decimal((-a.coef) as nat);
        assert(c == seq![seq!['-'], d]);
        assert(c.drop_last() =~= seq![seq!['-']]);
        assert(join_spaced(c.drop_last()) == seq!['-']);
        assert(join_spaced(c) =~= seq!['-', ' '] + d);
    }
    if p.len() == 0 {
        assert(c + p =~= c);
    } else {
        lemma_join_spaced_append(c, p);
    }
}

/// A term times its negation has the negated square of the coefficient, and
/// is the zero term only when the term itself is.
pub proof fn lemma_mul_neg(a: Monomial)
    ensures
        a.mul(a.neg()).coef == -(a.coef * a.coef),
        a.mul(a.neg()).is_zero() <==> a.is_zero(),
        a.mul(a.neg()).same_order(a.mul(a)),
{
    assert(a.coef * -a.coef == -(a.coef * a.coef)) by (nonlinear_arith);
    assert(a.coef * a.coef == 0 <==> a.coef == 0) by (nonlinear_arith);
}

} // verus!
