//! Storage encodings: arbitrary-precision monetary values as minimal
//! little-endian bytes, and unit counts as a signed 32-bit column.
use vstd::prelude::*;

verus! {

/// The number written by little-endian base-256 digits.
pub open spec fn le_value(b: Seq<u8>) -> nat
    decreases b.len(),
{
    if b.len() == 0 {
        0
    } else {
        b[0] as nat + 256 * le_value(b.drop_first())
    }
}

/// The minimal little-endian byte encoding of `v`: no trailing zero byte,
/// and the empty sequence for zero.
pub open spec fn le_bytes(v: nat) -> Seq<u8>
    decreases v,
{
    if v == 0 {
        Seq::empty()
    } else {
        seq![(v % 256) as u8] + le_bytes(v / 256)
    }
}

/// The number written by little-endian base-2^32 digits.
pub open spec fn digits_value(d: Seq<u32>) -> nat
    decreases d.len(),
{
    if d.len() == 0 {
        0
    } else {
        d[0] as nat + 0x1_0000_0000 * digits_value(d.drop_first())
    }
}

/// Digits without a trailing zero: the one way of writing each value.
pub open spec fn digits_normal(d: Seq<u32>) -> bool {
    d.len() == 0 || d.last() != 0
}

/// Decoding what was encoded gives the same value, for every non-negative
/// integer, zero and values beyond 64 bits included.
pub proof fn lemma_money_round_trip(v: nat)
    ensures
        le_value(le_bytes(v)) == v,
    decreases v,
{
    if v != 0 {
        let b = le_bytes(v);
        lemma_money_round_trip(v / 256);
        assert(b.drop_first() =~= le_bytes(v / 256));
        assert(v == v % 256 + 256 * (v / 256)) by (nonlinear_arith);
    }
}

/// Normal digits are empty exactly when they write zero.
pub proof fn lemma_normal_digits_zero(d: Seq<u32>)
    requires
        digits_normal(d),
    ensures
        (digits_value(d) == 0) == (d.len() == 0),
    decreases d.len(),
{
    if d.len() > 1 {
        let rest = d.drop_first();
        assert(rest.last() == d.last());
        lemma_normal_digits_zero(rest);
        assert(digits_value(d) >= 0x1_0000_0000 * digits_value(rest)) by (nonlinear_arith)
            requires digits_value(d) == d[0] as nat + 0x1_0000_0000 * digits_value(rest);
    } else if d.len() == 1 {
        assert(d.drop_first().len() == 0);
    }
}

/// A trailing zero digit does not change the value.
pub proof fn lemma_digits_trailing_zero(d: Seq<u32>)
    ensures
        digits_value(d.push(0)) == digits_value(d),
    decreases d.len(),
{
    let e = d.push(0);
    if d.len() > 0 {
        lemma_digits_trailing_zero(d.drop_first());
        assert(e.drop_first() =~= d.drop_first().push(0));
        assert(e[0] == d[0]);
    } else {
        assert(e.drop_first() =~= Seq::<u32>::empty());
        assert(digits_value(e.drop_first()) == 0);
        assert(digits_value(e) == e[0] as nat + 0x1_0000_0000 * digits_value(e.drop_first()));
    }
}

/// Relies on `num_bigint::BigUint::from_slice` and `BigUint::to_bytes_le`:
/// the little-endian bytes of the value of the base-2^32 digits, without a
/// trailing zero byte; zero gives the single byte `0`.
#[verifier::external_body]
fn biguint_bytes_le(digits: &[u32]) -> (r: Vec<u8>)
    ensures
        r@ == (if digits_value(digits@) == 0 {
            seq![0u8]
        } else {
            le_bytes(digits_value(digits@))
        }),
{
    num_bigint::BigUint::from_slice(digits).to_bytes_le()
}

/// Relies on `num_bigint::BigUint::from_bytes_le` and `BigUint::to_u32_digits`:
/// the base-2^32 digits, least significant first and without a trailing zero,
/// of the number whose little-endian bytes are given.
#[verifier::external_body]
fn biguint_digits_from_bytes_le(bytes: &[u8]) -> (r: Vec<u32>)
    ensures
        digits_value(r@) == le_value(bytes@),
        digits_normal(r@),
{
    num_bigint::BigUint::from_bytes_le(bytes).to_u32_digits()
}

/// A non-negative integer of any size: a monetary value.
///
/// Held as base-2^32 digits, least significant first, never with a trailing
/// zero digit, so that equal values have equal digits.
#[derive(Debug, PartialEq, Eq)]
pub struct Money {
    digits: Vec<u32>,
}

impl View for Money {
    type V = nat;

    closed spec fn view(&self) -> nat {
        digits_value(self.digits@)
    }
}

impl Money {
    #[verifier::type_invariant]
    spec fn normal(&self) -> bool {
        digits_normal(self.digits@)
    }

    /// Zero.
    pub fn zero() -> (r: Money)
        ensures
            r@ == 0,
    {
        Money { digits: Vec::new() }
    }

    /// The value written by `digits`, base 2^32, least significant first.
    /// Trailing zero digits are allowed and dropped.
    pub fn from_digits(digits: Vec<u32>) -> (r: Money)
        ensures
            r@ == digits_value(digits@),
    {
        let mut d = digits;
        while d.len() > 0 && d[d.len() - 1] == 0
            invariant
                digits_value(d@) == digits_value(digits@),
            decreases d.len(),
        {
            let ghost before = d@;
            d.pop();
            proof {
                assert(before == d@.push(0));
                lemma_digits_trailing_zero(d@);
            }
        }
        Money { digits: d }
    }

    /// The value of a 64-bit integer.
    pub fn from_u64(v: u64) -> (r: Money)
        ensures
            r@ == v,
    {
        proof {
            assert((v & 0xffff_ffff) < 0x1_0000_0000) by (bit_vector);
            assert((v >> 32u64) < 0x1_0000_0000) by (bit_vector);
            assert(v == (v & 0xffff_ffff) + 0x1_0000_0000 * (v >> 32u64)) by (bit_vector);
        }
        let lo = (v & 0xffff_ffff) as u32;
        let hi = (v >> 32u64) as u32;
        let mut d: Vec<u32> = Vec::new();
        d.push(lo);
        d.push(hi);
        proof {
            let rest = d@.drop_first();
            assert(rest.drop_first().len() == 0);
            assert(digits_value(rest.drop_first()) == 0);
            assert(rest[0] == hi);
            assert(digits_value(rest) == hi as nat);
            assert(digits_value(d@) == lo as nat + 0x1_0000_0000 * hi as nat);
        }
        Money::from_digits(d)
    }

    /// The base-2^32 digits, least significant first, without a trailing zero.
    pub fn digits(&self) -> (r: Vec<u32>)
        ensures
            digits_value(r@) == self@,
            digits_normal(r@),
    {
        proof {
            use_type_invariant(self);
        }
        self.digits.clone()
    }

    /// Whether the value is zero.
    pub fn is_zero(&self) -> (r: bool)
        ensures
            r == (self@ == 0),
    {
        proof {
            use_type_invariant(self);
            lemma_normal_digits_zero(self.digits@);
        }
        self.digits.len() == 0
    }
}

impl Clone for Money {
    fn clone(&self) -> (r: Money)
        ensures
            r@ == self@,
    {
        proof {
            use_type_invariant(self);
        }
        let digits = self.digits.clone();
        proof {
            assert(digits@ =~= self.digits@);
        }
        Money { digits }
    }
}

/// Encodes a monetary value for a binary column: its minimal little-endian
/// bytes, the empty sequence for zero.
pub fn encode_money(m: &Money) -> (r: Vec<u8>)
    ensures
        r@ == le_bytes(m@),
{
    if m.is_zero() {
        Vec::new()
    } else {
        proof {
            use_type_invariant(m);
        }
        biguint_bytes_le(m.digits.as_slice())
    }
}

/// Decodes a monetary value from the little-endian bytes of a binary column.
pub fn decode_money(bytes: &[u8]) -> (r: Money)
    ensures
        r@ == le_value(bytes@),
{
    let digits = biguint_digits_from_bytes_le(bytes);
    Money { digits }
}

/// The stored form of a unit count: itself where it fits the signed 32-bit
/// column, and 0 where it does not.
pub open spec fn amount_column(a: u32) -> i32 {
    if a <= i32::MAX as u32 {
        a as i32
    } else {
        0
    }
}

/// The unit count read back from a signed 32-bit column: its magnitude.
pub open spec fn amount_of_column(c: i32) -> u32 {
    if c < 0 {
        (-(c as int)) as u32
    } else {
        c as u32
    }
}

/// Encodes a unit count for its signed 32-bit column.
///
/// A count above `i32::MAX` does not fit and is stored as 0: the encoding is
/// lossy there, and callers that must not lose it check the bound first.
pub fn encode_amount(a: u32) -> (r: i32)
    ensures
        r == amount_column(a),
{
    if a <= i32::MAX as u32 {
        a as i32
    } else {
        0
    }
}

/// Decodes a unit count from its signed 32-bit column.
pub fn decode_amount(c: i32) -> (r: u32)
    ensures
        r == amount_of_column(c),
{
    if c < 0 {
        (-(c as i64)) as u32
    } else {
        c as u32
    }
}

/// Every count that fits the column comes back unchanged.
pub proof fn lemma_amount_round_trip(a: u32)
    requires
        a <= i32::MAX,
    ensures
        amount_of_column(amount_column(a)) == a,
{
}

} // verus!
