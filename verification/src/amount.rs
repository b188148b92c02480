//! Arbitrary-precision token amounts.
//!
//! An [`Amount`] is stored as the big-endian bytes of a natural number, the
//! form in which the ledger persists big unsigned integers. Its view is that
//! number. Arithmetic is done by `multiversx_sc::types::BigUint`, run on the
//! `StaticApi` of `multiversx-sc-scenario`. The six functions that call it
//! are the only unverified code of this crate: each reads its arguments with
//! `BigUint::from_bytes_be`, which takes a byte string for the number it
//! denotes in big-endian order, makes one call, and where the result is a
//! number writes it with `BigUint::to_bytes_be`, which gives the big-endian
//! bytes of the number.

use multiversx_sc::types::BigUint;
use multiversx_sc_scenario::api::StaticApi;
use vstd::prelude::*;

verus! {

/// The natural number that a big-endian byte string denotes.
pub open spec fn be_value(s: Seq<u8>) -> nat
    decreases s.len(),
{
    if s.len() == 0 {
        0
    } else {
        be_value(s.drop_last()) * 256 + s.last() as nat
    }
}

/// The shortest big-endian byte string that denotes `v`.
pub open spec fn be_digits(v: nat) -> Seq<u8>
    decreases v,
{
    if v == 0 {
        Seq::empty()
    } else {
        be_digits(v / 256).push((v % 256) as u8)
    }
}

/// Appending one byte shifts the value by one byte and adds the new one.
pub proof fn lemma_be_value_push(s: Seq<u8>, d: u8)
    ensures
        be_value(s.push(d)) == be_value(s) * 256 + d as nat,
{
    assert(s.push(d).drop_last() =~= s);
}

/// `be_digits` is a right inverse of `be_value`.
pub proof fn lemma_be_digits_value(v: nat)
    ensures
        be_value(be_digits(v)) == v,
    decreases v,
{
    if v != 0 {
        lemma_be_digits_value(v / 256);
        lemma_be_value_push(be_digits(v / 256), (v % 256) as u8);
    }
}

/// A prefix of a byte string denotes no more than the whole string.
pub proof fn lemma_be_value_prefix(s: Seq<u8>, n: int)
    requires
        0 <= n <= s.len(),
    ensures
        be_value(s.take(n)) <= be_value(s),
    decreases s.len() - n,
{
    if n < s.len() {
        lemma_be_value_prefix(s, n + 1);
        assert(s.take(n + 1).drop_last() =~= s.take(n));
    } else {
        assert(s.take(n) =~= s);
    }
}

/// A non-negative amount of tokens of any size.
#[derive(Debug, PartialEq, Eq)]
pub struct Amount {
    bytes: Vec<u8>,
}

impl View for Amount {
    type V = nat;

    closed spec fn view(&self) -> nat {
        be_value(self.bytes@)
    }
}

impl Clone for Amount {
    fn clone(&self) -> (r: Self)
        ensures
            r@ == self@,
    {
        let bytes = self.bytes.clone();
        assert(bytes@ =~= self.bytes@);
        Amount { bytes }
    }
}

/// `BigUint + BigUint` (`core::ops::Add` of `multiversx_sc::types::BigUint`):
/// the result is claimed to be the sum of the two numbers.
#[verifier::external_body]
fn big_add(a: &Amount, b: &Amount) -> (r: Amount)
    ensures
        r@ == a@ + b@,
{
    let x = BigUint::<StaticApi>::from_bytes_be(a.bytes.as_slice());
    let y = BigUint::<StaticApi>::from_bytes_be(b.bytes.as_slice());
    Amount { bytes: (x + y).to_bytes_be().as_slice().to_vec() }
}

/// `BigUint - BigUint` (`core::ops::Sub` of `multiversx_sc::types::BigUint`):
/// the result is claimed to be the difference of the two numbers. The
/// operator signals an error where the difference would be negative, so that
/// case is left out.
#[verifier::external_body]
fn big_sub(a: &Amount, b: &Amount) -> (r: Amount)
    requires
        b@ <= a@,
    ensures
        r@ == a@ - b@,
{
    let x = BigUint::<StaticApi>::from_bytes_be(a.bytes.as_slice());
    let y = BigUint::<StaticApi>::from_bytes_be(b.bytes.as_slice());
    Amount { bytes: (x - y).to_bytes_be().as_slice().to_vec() }
}

/// `BigUint * BigUint` (`core::ops::Mul` of `multiversx_sc::types::BigUint`):
/// the result is claimed to be the product of the two numbers.
#[verifier::external_body]
fn big_mul(a: &Amount, b: &Amount) -> (r: Amount)
    ensures
        r@ == a@ * b@,
{
    let x = BigUint::<StaticApi>::from_bytes_be(a.bytes.as_slice());
    let y = BigUint::<StaticApi>::from_bytes_be(b.bytes.as_slice());
    Amount { bytes: (x * y).to_bytes_be().as_slice().to_vec() }
}

/// `BigUint / BigUint` (`core::ops::Div` of `multiversx_sc::types::BigUint`):
/// the result is claimed to be the quotient of the two numbers, rounded
/// down. The operator signals an error on a zero divisor, so that case is
/// left out.
#[verifier::external_body]
fn big_div(a: &Amount, b: &Amount) -> (r: Amount)
    requires
        b@ > 0,
    ensures
        r@ == a@ / b@,
{
    let x = BigUint::<StaticApi>::from_bytes_be(a.bytes.as_slice());
    let y = BigUint::<StaticApi>::from_bytes_be(b.bytes.as_slice());
    Amount { bytes: (x / y).to_bytes_be().as_slice().to_vec() }
}

/// `BigUint <= BigUint` (`PartialOrd` of `multiversx_sc::types::BigUint`):
/// the result is claimed to say whether the first number is at most the
/// second.
#[verifier::external_body]
fn big_le(a: &Amount, b: &Amount) -> (r: bool)
    ensures
        r == (a@ <= b@),
{
    let x = BigUint::<StaticApi>::from_bytes_be(a.bytes.as_slice());
    let y = BigUint::<StaticApi>::from_bytes_be(b.bytes.as_slice());
    x <= y
}

/// `BigUint == BigUint` (`PartialEq` of `multiversx_sc::types::BigUint`):
/// the result is claimed to say whether the two numbers are the same.
#[verifier::external_body]
fn big_eq(a: &Amount, b: &Amount) -> (r: bool)
    ensures
        r == (a@ == b@),
{
    let x = BigUint::<StaticApi>::from_bytes_be(a.bytes.as_slice());
    let y = BigUint::<StaticApi>::from_bytes_be(b.bytes.as_slice());
    x == y
}

/// Appends the shortest big-endian form of `v` to `out`.
fn push_be_digits(v: u64, out: &mut Vec<u8>)
    ensures
        final(out)@ == old(out)@ + be_digits(v as nat),
    decreases v,
{
    if v > 0 {
        push_be_digits(v / 256, out);
        out.push((v % 256) as u8);
        assert(final(out)@ =~= old(out)@ + be_digits(v as nat));
    } else {
        assert(out@ =~= old(out)@ + be_digits(0));
    }
}

impl Amount {
    /// The amount zero.
    pub fn zero() -> (r: Amount)
        ensures
            r@ == 0,
    {
        Amount { bytes: Vec::new() }
    }

    /// The amount `v`.
    pub fn from_u64(v: u64) -> (r: Amount)
        ensures
            r@ == v,
    {
        let mut bytes: Vec<u8> = Vec::new();
        push_be_digits(v, &mut bytes);
        proof {
            lemma_be_digits_value(v as nat);
            assert(bytes@ =~= be_digits(v as nat));
        }
        Amount { bytes }
    }

    /// The amount as a machine integer, where it fits.
    pub fn to_u64(&self) -> (r: Option<u64>)
        ensures
            self@ <= u64::MAX ==> r == Some(self@ as u64),
            self@ > u64::MAX ==> r is None,
    {
        let mut acc: u64 = 0;
        let mut i: usize = 0;
        while i < self.bytes.len()
            invariant
                i <= self.bytes.len(),
                acc == be_value(self.bytes@.take(i as int)),
            decreases self.bytes.len() - i,
        {
            let b: u8 = self.bytes[i];
            proof {
                assert(self.bytes@.take(i + 1).drop_last() =~= self.bytes@.take(i as int));
                lemma_be_value_prefix(self.bytes@, i + 1);
            }
            if acc > (u64::MAX - b as u64) / 256 {
                return None;
            }
            acc = acc * 256 + b as u64;
            i = i + 1;
        }
        assert(self.bytes@.take(i as int) =~= self.bytes@);
        Some(acc)
    }

    /// A copy of the amount.
    pub fn dup(&self) -> (r: Amount)
        ensures
            r@ == self@,
    {
        self.clone()
    }

    /// `self + other`.
    pub fn plus(&self, other: &Amount) -> (r: Amount)
        ensures
            r@ == self@ + other@,
    {
        big_add(self, other)
    }

    /// `self - other`, where that is not negative.
    pub fn checked_minus(&self, other: &Amount) -> (r: Option<Amount>)
        ensures
            other@ <= self@ ==> r is Some && r->0@ == self@ - other@,
            other@ > self@ ==> r is None,
    {
        if big_le(other, self) {
            Some(big_sub(self, other))
        } else {
            None
        }
    }

    /// `self - other`.
    pub fn minus(&self, other: &Amount) -> (r: Amount)
        requires
            other@ <= self@,
        ensures
            r@ == self@ - other@,
    {
        big_sub(self, other)
    }

    /// `self - other`, or zero where that would be negative.
    pub fn saturating_minus(&self, other: &Amount) -> (r: Amount)
        ensures
            r@ == if other@ <= self@ { self@ - other@ } else { 0 },
    {
        if big_le(other, self) {
            big_sub(self, other)
        } else {
            Amount::zero()
        }
    }

    /// `self * other`.
    pub fn times(&self, other: &Amount) -> (r: Amount)
        ensures
            r@ == self@ * other@,
    {
        big_mul(self, other)
    }

    /// `self * factor`.
    pub fn times_u64(&self, factor: u64) -> (r: Amount)
        ensures
            r@ == self@ * factor,
    {
        let f = Amount::from_u64(factor);
        big_mul(self, &f)
    }

    /// `self / divisor`, rounded down.
    pub fn div_floor(&self, divisor: &Amount) -> (r: Amount)
        requires
            divisor@ > 0,
        ensures
            r@ == self@ / divisor@,
    {
        big_div(self, divisor)
    }

    /// `self / divisor`, rounded down.
    pub fn div_floor_u64(&self, divisor: u64) -> (r: Amount)
        requires
            divisor > 0,
        ensures
            r@ == self@ / (divisor as nat),
    {
        let d = Amount::from_u64(divisor);
        big_div(self, &d)
    }

    /// Whether `self <= other`.
    pub fn le(&self, other: &Amount) -> (r: bool)
        ensures
            r == (self@ <= other@),
    {
        big_le(self, other)
    }

    /// Whether `self < other`.
    pub fn lt(&self, other: &Amount) -> (r: bool)
        ensures
            r == (self@ < other@),
    {
        !big_le(other, self)
    }

    /// Whether both amounts are the same number.
    pub fn same(&self, other: &Amount) -> (r: bool)
        ensures
            r == (self@ == other@),
    {
        big_eq(self, other)
    }

    /// Whether the amount is zero.
    pub fn is_zero(&self) -> (r: bool)
        ensures
            r == (self@ == 0),
    {
        let z = Amount::zero();
        big_eq(self, &z)
    }

    /// The smaller of two amounts.
    pub fn min(a: Amount, b: Amount) -> (r: Amount)
        ensures
            r@ == if a@ <= b@ { a@ } else { b@ },
    {
        if big_le(&a, &b) {
            a
        } else {
            b
        }
    }
}

} // verus!
