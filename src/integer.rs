//! Arbitrary-precision integers held as two's-complement little-endian bytes.
//! The arithmetic itself is done by `num_bigint`: each operation below reads
//! its operands with `BigInt::from_signed_bytes_le` and writes its result with
//! `BigInt::to_signed_bytes_le`, which read and write the form that
//! `twos_value` gives the value of.

use num_bigint::BigInt;
use std::cmp::Ordering;
use vstd::arithmetic::power::pow;
use vstd::math::abs;
use vstd::prelude::*;

verus! {

/// Unsigned value of little-endian bytes.
pub open spec fn le_value(b: Seq<u8>) -> nat
    decreases b.len(),
{
    if b.len() == 0 {
        0
    } else {
        b[0] as nat + 256 * le_value(b.drop_first())
    }
}

/// Signed value of two's-complement little-endian bytes; no bytes is zero.
pub open spec fn twos_value(b: Seq<u8>) -> int {
    if b.len() > 0 && b.last() >= 128 {
        le_value(b) - pow(256, b.len())
    } else {
        le_value(b) as int
    }
}

/// The character of a decimal digit `d < 10`.
pub open spec fn digit_char(d: nat) -> char {
    ((d + 48) as u8) as char
}

/// Base-10 digits of `n`, without leading zeros (`0` is a single digit).
pub open spec fn nat_decimal(n: nat) -> Seq<char>
    decreases n,
{
    if n < 10 {
        seq![digit_char(n)]
    } else {
        nat_decimal(n / 10).push(digit_char(n % 10))
    }
}

/// Base-10 text of `i`, with a leading `-` when negative.
pub open spec fn int_decimal(i: int) -> Seq<char> {
    if i < 0 {
        seq!['-'] + nat_decimal((-i) as nat)
    } else {
        nat_decimal(i as nat)
    }
}

/// Quotient rounded toward zero (`b != 0`).
pub open spec fn trunc_div(a: int, b: int) -> int {
    let q = (abs(a) / abs(b)) as int;
    if (a < 0) == (b < 0) {
        q
    } else {
        -q
    }
}

/// Remainder of the division rounded toward zero: it takes the sign of `a`.
pub open spec fn trunc_rem(a: int, b: int) -> int {
    let r = (abs(a) % abs(b)) as int;
    if a < 0 {
        -r
    } else {
        r
    }
}

/// An arbitrary-precision signed integer.
#[derive(Debug)]
pub struct Integer {
    bytes: Vec<u8>,
}

impl View for Integer {
    type V = int;

    closed spec fn view(&self) -> int {
        twos_value(self.bytes@)
    }
}

impl Integer {
    /// Relies on `BigInt: From<i64>`: the same value.
    #[verifier::external_body]
    fn big_from_i64(v: i64) -> (r: Integer)
        ensures
            r@ == v as int,
    {
        Integer { bytes: BigInt::from(v).to_signed_bytes_le() }
    }

    /// Relies on `Ord::cmp` of `BigInt`: the numeric order.
    #[verifier::external_body]
    pub(crate) fn big_cmp(&self, other: &Integer) -> (r: Ordering)
        ensures
            (r == Ordering::Less) == (self@ < other@),
            (r == Ordering::Equal) == (self@ == other@),
            (r == Ordering::Greater) == (self@ > other@),
    {
        BigInt::from_signed_bytes_le(&self.bytes).cmp(&BigInt::from_signed_bytes_le(&other.bytes))
    }

    /// The integer `v`.
    pub fn from_i64(v: i64) -> (r: Integer)
        ensures
            r@ == v as int,
    {
        Self::big_from_i64(v)
    }
    /// Relies on `&BigInt + &BigInt`: the exact sum.
    #[verifier::external_body]
    pub(crate) fn big_add(&self, other: &Integer) -> (r: Integer)
        ensures
            r@ == self@ + other@,
    {
        let v = &BigInt::from_signed_bytes_le(&self.bytes) + &BigInt::from_signed_bytes_le(&other.bytes);
        Integer { bytes: v.to_signed_bytes_le() }
    }

    /// Relies on `&BigInt - &BigInt`: the exact difference.
    #[verifier::external_body]
    pub(crate) fn big_sub(&self, other: &Integer) -> (r: Integer)
        ensures
            r@ == self@ - other@,
    {
        let v = &BigInt::from_signed_bytes_le(&self.bytes) - &BigInt::from_signed_bytes_le(&other.bytes);
        Integer { bytes: v.to_signed_bytes_le() }
    }

    /// Relies on `&BigInt * &BigInt`: the exact product.
    #[verifier::external_body]
    pub(crate) fn big_mul(&self, other: &Integer) -> (r: Integer)
        ensures
            r@ == self@ * other@,
    {
        let v = &BigInt::from_signed_bytes_le(&self.bytes) * &BigInt::from_signed_bytes_le(&other.bytes);
        Integer { bytes: v.to_signed_bytes_le() }
    }

    /// Relies on `&BigInt * usize`: the exact product.
    #[verifier::external_body]
    pub(crate) fn big_mul_usize(&self, n: usize) -> (r: Integer)
        ensures
            r@ == self@ * n,
    {
        let v = &BigInt::from_signed_bytes_le(&self.bytes) * n;
        Integer { bytes: v.to_signed_bytes_le() }
    }

    /// Relies on `&BigInt / &BigInt`, which rounds toward zero and panics on a
    /// zero divisor.
    #[verifier::external_body]
    pub(crate) fn big_div(&self, other: &Integer) -> (r: Integer)
        requires
            other@ != 0,
        ensures
            r@ == trunc_div(self@, other@),
    {
        let v = &BigInt::from_signed_bytes_le(&self.bytes) / &BigInt::from_signed_bytes_le(&other.bytes);
        Integer { bytes: v.to_signed_bytes_le() }
    }

    /// Relies on `&BigInt % &BigInt`, whose result takes the sign of the
    /// dividend and which panics on a zero divisor.
    #[verifier::external_body]
    pub(crate) fn big_rem(&self, other: &Integer) -> (r: Integer)
        requires
            other@ != 0,
        ensures
            r@ == trunc_rem(self@, other@),
    {
        let v = &BigInt::from_signed_bytes_le(&self.bytes) % &BigInt::from_signed_bytes_le(&other.bytes);
        Integer { bytes: v.to_signed_bytes_le() }
    }

    /// Relies on `-&BigInt`: the negation.
    #[verifier::external_body]
    pub(crate) fn big_neg(&self) -> (r: Integer)
        ensures
            r@ == -self@,
    {
        let v = -&BigInt::from_signed_bytes_le(&self.bytes);
        Integer { bytes: v.to_signed_bytes_le() }
    }

    /// Relies on `num_traits::pow`: `n` repeated products, and one for `n == 0`.
    #[verifier::external_body]
    pub(crate) fn big_pow(&self, n: usize) -> (r: Integer)
        ensures
            r@ == pow(self@, n as nat),
    {
        let v = num_traits::pow(BigInt::from_signed_bytes_le(&self.bytes), n);
        Integer { bytes: v.to_signed_bytes_le() }
    }

    /// Relies on `Display` of `BigInt`: base 10, `-` before a negative value.
    #[verifier::external_body]
    pub(crate) fn big_to_string(&self) -> (r: String)
        ensures
            r@ == int_decimal(self@),
    {
        BigInt::from_signed_bytes_le(&self.bytes).to_string()
    }

    /// The integer whose two's-complement little-endian bytes are `bytes`.
    pub fn from_signed_bytes_le(bytes: Vec<u8>) -> (r: Integer)
        ensures
            r@ == twos_value(bytes@),
    {
        Integer { bytes }
    }

    /// Two's-complement little-endian bytes of the integer.
    pub fn to_signed_bytes_le(&self) -> (r: Vec<u8>)
        ensures
            twos_value(r@) == self@,
    {
        self.bytes.clone()
    }

}

impl Clone for Integer {
    fn clone(&self) -> (r: Integer)
        ensures
            r@ == self@,
    {
        Integer { bytes: self.bytes.clone() }
    }
}

impl PartialEq for Integer {
    fn eq(&self, other: &Integer) -> (r: bool) {
        match self.big_cmp(other) {
            Ordering::Equal => true,
            _ => false,
        }
    }
}

impl vstd::std_specs::cmp::PartialEqSpecImpl for Integer {
    open spec fn obeys_eq_spec() -> bool {
        true
    }

    open spec fn eq_spec(&self, other: &Integer) -> bool {
        self@ == other@
    }
}

impl Eq for Integer {
}

} // verus!
