//! Primality test used by the bundled user program.
use vstd::prelude::*;

verus! {

/// Some number from two up to half of `n` divides `n`.
pub open spec fn has_divisor_up_to_half(n: nat) -> bool {
    exists|d: nat| 2 <= d <= n / 2 && #[trigger] (n % d) == 0
}

/// A natural number is prime when it is at least two and no number from
/// two up to half of it divides it.
pub open spec fn is_prime_spec(n: nat) -> bool {
    n >= 2 && !has_divisor_up_to_half(n)
}

/// Decides whether `num` is prime by trial division up to `num / 2`.
pub fn is_prime(num: u64) -> (r: bool)
    ensures
        r == is_prime_spec(num as nat),
{
    if num < 2 {
        return false;
    }
    let half: u64 = num / 2;
    let mut i: u64 = 2;
    while i <= half
        invariant
            2 <= i <= half + 1,
            half == num / 2,
            num >= 2,
            forall|d: nat| 2 <= d < i ==> #[trigger] ((num as nat) % d) != 0,
        decreases half + 1 - i,
    {
        if num % i == 0 {
            assert((num as nat) % (i as nat) == 0);
            return false;
        }
        i = i + 1;
    }
    true
}

} // verus!
