use crate::natural::{bit_count, Natural};
use vstd::arithmetic::power2::pow2;
use vstd::prelude::*;

verus! {

/// Why an arithmetic helper refused its input.
#[derive(Debug, Clone, Copy, PartialEq, Eq, Structural)]
pub enum MathError {
    /// The input must be positive.
    InvalidInput,
}

/// `floor(log2(n))` for a positive `n`.
pub open spec fn is_floor_log2(n: nat, r: nat) -> bool {
    pow2(r) <= n < pow2(r + 1)
}

/// The floor of the base-2 logarithm of `num`; zero has none.
pub fn log2(num: &Natural) -> (r: Result<u64, MathError>)
    ensures
        num@ == 0 <==> r == Err::<u64, MathError>(MathError::InvalidInput),
        num@ > 0 ==> r is Ok,
        r matches Ok(k) ==> is_floor_log2(num@, k as nat),
{
    let bits = bit_count(num);
    if bits == 0 {
        return Err(MathError::InvalidInput);
    }
    let k: u64 = bits - 1;
    assert((k + 1) as nat == bits as nat);
    Ok(k)
}

} // verus!
