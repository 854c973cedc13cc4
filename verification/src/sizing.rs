//! Power-of-two bucketing of texture sizes.
//!
//! Every buffer in the pool is a square whose side is a power of two, so a
//! request for `width` x `height` is served by the bucket of the larger side.

use vstd::arithmetic::power2::is_pow2;
use vstd::prelude::*;

verus! {

/// The larger of two sides.
pub open spec fn larger(width: nat, height: nat) -> nat {
    if width >= height {
        width
    } else {
        height
    }
}

/// The side of the bucket that serves a request of side `n`: the smallest
/// power of two that is at least `n` (see `lemma_bucket_is_least_power`).
pub open spec fn bucket(n: nat) -> nat
    decreases n,
{
    if n <= 1 {
        1
    } else {
        2 * bucket((n + 1) / 2)
    }
}

/// A bucket covers the side it was computed for.
pub proof fn lemma_bucket_covers(n: nat)
    ensures
        bucket(n) >= n,
        bucket(n) >= 1,
    decreases n,
{
    if n > 1 {
        lemma_bucket_covers((n + 1) / 2);
    }
}

/// A bucket is a power of two.
pub proof fn lemma_bucket_is_power(n: nat)
    ensures
        is_pow2(bucket(n) as int),
    decreases n,
{
    reveal(is_pow2);
    if n > 1 {
        lemma_bucket_is_power((n + 1) / 2);
        lemma_bucket_covers((n + 1) / 2);
        let half = bucket((n + 1) / 2) as int;
        assert((2 * half) / 2 == half);
        assert((2 * half) % 2 == 0);
    }
}

/// No power of two below the bucket covers the side: the bucket is the least.
pub proof fn lemma_bucket_is_least_power(n: nat, q: int)
    requires
        is_pow2(q),
        q >= n,
    ensures
        bucket(n) <= q,
    decreases n,
{
    reveal(is_pow2);
    if n > 1 {
        lemma_bucket_is_least_power((n + 1) / 2, q / 2);
    }
}

/// Bucketing a power of two changes nothing: rounding is idempotent.
pub proof fn lemma_bucket_of_power(q: nat)
    requires
        is_pow2(q as int),
    ensures
        bucket(q) == q,
{
    lemma_bucket_covers(q);
    lemma_bucket_is_least_power(q, q as int);
}

/// A larger side never gets a smaller bucket.
pub proof fn lemma_bucket_monotonic(a: nat, b: nat)
    requires
        a <= b,
    ensures
        bucket(a) <= bucket(b),
{
    lemma_bucket_covers(b);
    lemma_bucket_is_power(b);
    lemma_bucket_is_least_power(a, bucket(b) as int);
}

/// Between a power of two and the next one lies no other.
proof fn lemma_powers_are_spaced(p: int, q: int)
    requires
        is_pow2(p),
        is_pow2(q),
        p < q,
    ensures
        2 * p <= q,
    decreases p,
{
    reveal(is_pow2);
    if p > 1 {
        lemma_powers_are_spaced(p / 2, q / 2);
    }
}

/// Rounds a requested size up to the square bucket that serves it.
///
/// Returns `None` exactly when the bucket's side does not fit in `usize`.
pub fn alloc_size(width: usize, height: usize) -> (size: Option<(usize, usize)>)
    ensures
        match size {
            Some((w, h)) => w == h && w == bucket(larger(width as nat, height as nat)),
            None => bucket(larger(width as nat, height as nat)) > usize::MAX,
        },
{
    let side: usize = if width >= height {
        width
    } else {
        height
    };
    let mut power: usize = 1;
    proof {
        reveal(is_pow2);
        lemma_bucket_covers(side as nat);
    }
    while power < side
        invariant
            side == larger(width as nat, height as nat),
            1 <= power,
            is_pow2(power as int),
            power <= bucket(side as nat),
        decreases bucket(side as nat) - power,
    {
        proof {
            lemma_bucket_covers(side as nat);
            lemma_bucket_is_power(side as nat);
            lemma_powers_are_spaced(power as int, bucket(side as nat) as int);
            reveal(is_pow2);
        }
        if power > usize::MAX / 2 {
            return None;
        }
        proof {
            assert((2 * power) / 2 == power);
        }
        power = power * 2;
    }
    proof {
        lemma_bucket_is_least_power(side as nat, power as int);
    }
    Some((power, power))
}

} // verus!
