use num_bigint::BigUint;
use num_bigint::RandBigInt;
use num_traits::ToPrimitive;
use vstd::arithmetic::power::pow;
use vstd::arithmetic::power2::pow2;
use vstd::prelude::*;

verus! {

/// The value of little-endian base 2^32 digits.
pub open spec fn digits_value(d: Seq<u32>) -> nat
    decreases d.len(),
{
    if d.len() == 0 {
        0
    } else {
        d[0] as nat + 4294967296 * digits_value(d.drop_first())
    }
}

/// An arbitrary-precision nonnegative integer, held as little-endian base 2^32
/// digits. Leading zero digits are allowed: only the value matters.
pub struct Natural {
    digits: Vec<u32>,
}

impl View for Natural {
    type V = nat;

    closed spec fn view(&self) -> nat {
        digits_value(self.digits@)
    }
}

impl Natural {
    /// Builds a value from its little-endian base 2^32 digits.
    pub fn from_digits(digits: Vec<u32>) -> (r: Natural)
        ensures
            r@ == digits_value(digits@),
    {
        Natural { digits }
    }

    /// The little-endian base 2^32 digits of the value.
    pub fn to_digits(&self) -> (r: Vec<u32>)
        ensures
            digits_value(r@) == self@,
    {
        self.digits.clone()
    }

    /// The value `v`, as two digits.
    pub fn from_u64(v: u64) -> (r: Natural)
        ensures
            r@ == v as nat,
    {
        let low = (v % 4294967296) as u32;
        let high = (v / 4294967296) as u32;
        let digits = vec![low, high];
        proof {
            reveal_with_fuel(digits_value, 3);
            assert(digits@.drop_first().drop_first().len() == 0);
            vstd::arithmetic::div_mod::lemma_fundamental_div_mod(v as int, 4294967296);
        }
        Natural { digits }
    }
}

/// Relies on `ToPrimitive::to_u64` for `BigUint`: `Some` exactly when the value fits.
#[verifier::external_body]
pub(crate) fn to_u64(n: &Natural) -> (r: Option<u64>)
    ensures
        n@ <= u64::MAX ==> r == Some(n@ as u64),
        n@ > u64::MAX ==> r.is_none(),
{
    BigUint::from_slice(&n.digits).to_u64()
}

/// Relies on `BigUint::bits`: the fewest bits that express the value.
#[verifier::external_body]
pub(crate) fn bit_count(n: &Natural) -> (r: u64)
    ensures
        n@ == 0 <==> r == 0,
        r > 0 ==> pow2((r - 1) as nat) <= n@ < pow2(r as nat),
{
    BigUint::from_slice(&n.digits).bits()
}

/// Whether the value is odd: the lowest digit decides, as 2^32 is even.
pub(crate) fn is_odd(n: &Natural) -> (r: bool)
    ensures
        r == (n@ % 2 == 1),
{
    if n.digits.len() == 0 {
        return false;
    }
    let low = n.digits[0];
    proof {
        let rest = digits_value(n.digits@.drop_first());
        assert((low as nat + 4294967296 * rest) % 2 == (low as nat) % 2) by (nonlinear_arith);
    }
    low % 2 == 1
}

/// Relies on `BigUint: Div<u32>`: floor division.
#[verifier::external_body]
pub(crate) fn half(n: &Natural) -> (r: Natural)
    ensures
        r@ == n@ / 2,
{
    Natural { digits: (BigUint::from_slice(&n.digits) / 2u32).to_u32_digits() }
}

/// Relies on `BigUint: Sub<u32>`, which panics below zero.
#[verifier::external_body]
pub(crate) fn sub_small(n: &Natural, k: u32) -> (r: Natural)
    requires
        n@ >= k,
    ensures
        r@ == n@ - k,
{
    Natural { digits: (BigUint::from_slice(&n.digits) - k).to_u32_digits() }
}

/// Relies on `BigUint: Add<u32>`.
#[verifier::external_body]
pub(crate) fn add_small(n: &Natural, k: u32) -> (r: Natural)
    ensures
        r@ == n@ + k,
{
    Natural { digits: (BigUint::from_slice(&n.digits) + k).to_u32_digits() }
}

/// Relies on `BigUint: Shl<u64>`: multiplication by a power of two.
#[verifier::external_body]
pub(crate) fn shift_left(n: &Natural, k: u64) -> (r: Natural)
    ensures
        r@ == n@ * pow2(k as nat),
{
    Natural { digits: (BigUint::from_slice(&n.digits) << k).to_u32_digits() }
}

/// Relies on `BigUint::modpow`: `b^e mod m`. It panics on a zero modulus; the
/// modulus 1 is left out as well.
#[verifier::external_body]
pub(crate) fn mod_pow(b: &Natural, e: &Natural, m: &Natural) -> (r: Natural)
    requires
        m@ > 1,
    ensures
        r@ == pow(b@ as int, e@) % (m@ as int),
{
    let r = BigUint::from_slice(&b.digits).modpow(&BigUint::from_slice(&e.digits), &BigUint::from_slice(&m.digits));
    Natural { digits: r.to_u32_digits() }
}

/// Relies on `PartialEq` for `BigUint`: equality of values.
#[verifier::external_body]
pub(crate) fn same_value(a: &Natural, b: &Natural) -> (r: bool)
    ensures
        r == (a@ == b@),
{
    BigUint::from_slice(&a.digits) == BigUint::from_slice(&b.digits)
}

/// Relies on `RandBigInt::gen_biguint_range` over `rand::thread_rng`: a value in
/// `[lo, hi)`; it panics unless `lo < hi`.
#[verifier::external_body]
pub(crate) fn random_in_range(lo: &Natural, hi: &Natural) -> (r: Natural)
    requires
        lo@ < hi@,
    ensures
        lo@ <= r@ < hi@,
{
    let r = rand::thread_rng().gen_biguint_range(&BigUint::from_slice(&lo.digits), &BigUint::from_slice(&hi.digits));
    Natural { digits: r.to_u32_digits() }
}

} // verus!
