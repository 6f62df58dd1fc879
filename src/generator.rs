use crate::natural::{add_small, random_in_range, shift_left, Natural};
use crate::primality_test::{
    fast_path, fermat_outcome, fermat_test, miller_rabin_outcome, miller_rabin_test, TestResult,
};
use vstd::arithmetic::power2::{lemma2_to64, lemma_pow2_unfold, pow2};
use vstd::prelude::*;

verus! {

/// Which probabilistic test a search runs on its candidates.
#[derive(Debug, Clone, Copy, PartialEq, Eq, Structural)]
pub enum PrimalityTest {
    MillerRabin,
    Fermat,
}

impl Default for PrimalityTest {
    /// The Miller-Rabin test, which searches use unless told otherwise.
    fn default() -> (r: PrimalityTest)
        ensures
            r == PrimalityTest::MillerRabin,
    {
        PrimalityTest::MillerRabin
    }
}

/// `v` has exactly `bits` bits: `2^(bits - 1) <= v < 2^bits`.
pub open spec fn has_bit_length(v: nat, bits: nat) -> bool {
    bits > 0 && pow2((bits - 1) as nat) <= v < pow2(bits)
}

/// The verdicts that `test` may give on `n`.
pub open spec fn test_outcome(test: PrimalityTest, n: nat, r: TestResult) -> bool {
    match test {
        PrimalityTest::MillerRabin => miller_rabin_outcome(n, None, r),
        PrimalityTest::Fermat => fermat_outcome(n, None, r),
    }
}

/// A verdict that ends the search.
pub open spec fn is_accepted(r: TestResult) -> bool {
    r == TestResult::Prime || r == TestResult::ProbablyPrime
}

/// Whether a verdict ends the search.
pub fn accepts(result: TestResult) -> (r: bool)
    ensures
        r == is_accepted(result),
{
    match result {
        TestResult::Prime | TestResult::ProbablyPrime => true,
        TestResult::One | TestResult::Composite => false,
    }
}

/// Runs `test` on `number` with the default count of rounds.
pub fn run_test(test: PrimalityTest, number: &Natural) -> (r: TestResult)
    ensures
        test_outcome(test, number@, r),
{
    match test {
        PrimalityTest::MillerRabin => miller_rabin_test(number, None),
        PrimalityTest::Fermat => fermat_test(number, None),
    }
}

/// A random odd number of exactly `bits` bits: `2m + 1` for a random `m` in
/// `[2^(bits - 2), 2^(bits - 1))`, and 1 for one bit.
pub fn draw_candidate(bits: u64) -> (r: Natural)
    requires
        bits > 0,
    ensures
        has_bit_length(r@, bits as nat),
        r@ % 2 == 1,
{
    proof {
        lemma2_to64();
    }
    let one = Natural::from_u64(1);
    if bits == 1 {
        return one;
    }
    let low = shift_left(&one, bits - 2);
    let high = shift_left(&one, bits - 1);
    proof {
        lemma_pow2_unfold((bits - 1) as nat);
        lemma_pow2_unfold(bits as nat);
        vstd::arithmetic::power2::lemma_pow2_pos((bits - 2) as nat);
    }
    let m = random_in_range(&low, &high);
    let r = add_small(&shift_left(&m, 1), 1);
    proof {
        assert(r@ == 2 * m@ + 1);
    }
    r
}

/// Keeps `candidate` exactly when `verdict` ends the search.
pub fn keep_if_accepted(candidate: Natural, verdict: TestResult) -> (r: Option<Natural>)
    ensures
        r is Some <==> is_accepted(verdict),
        r matches Some(p) ==> p@ == candidate@,
{
    if accepts(verdict) {
        Some(candidate)
    } else {
        None
    }
}

/// One step of the search for a prime of `bits` bits: draws a candidate and
/// keeps it when `test` accepts it.
pub fn try_generate(bits: u64, test: PrimalityTest) -> (r: Option<Natural>)
    requires
        bits > 0,
    ensures
        r matches Some(p) ==> has_bit_length(p@, bits as nat) && p@ % 2 == 1,
        r matches Some(p) ==> fast_path(p@) is None || fast_path(p@) == Some(TestResult::Prime),
        r matches Some(p) ==> exists|v: TestResult| #[trigger] test_outcome(test, p@, v) && is_accepted(v),
        r is None ==> exists|c: nat, v: TestResult|
            has_bit_length(c, bits as nat) && c % 2 == 1 && #[trigger] test_outcome(test, c, v)
                && !is_accepted(v),
{
    let candidate = draw_candidate(bits);
    let verdict = run_test(test, &candidate);
    assert(test_outcome(test, candidate@, verdict));
    let r = keep_if_accepted(candidate, verdict);
    proof {
        if r is Some {
            assert(test_outcome(test, r->0@, verdict));
        }
    }
    r
}

/// Every 2-bit search succeeds: its only candidate, 3, is decided prime by the
/// fast path.
pub proof fn two_bit_search_succeeds(test: PrimalityTest, r: Option<Natural>)
    requires
        r is None ==> exists|c: nat, v: TestResult|
            has_bit_length(c, 2) && c % 2 == 1 && #[trigger] test_outcome(test, c, v)
                && !is_accepted(v),
    ensures
        r is Some,
{
    lemma2_to64();
    if r is None {
        let (c, v) = choose|c: nat, v: TestResult|
            has_bit_length(c, 2) && c % 2 == 1 && #[trigger] test_outcome(test, c, v)
                && !is_accepted(v);
        assert(c == 3);
    }
}

} // verus!
