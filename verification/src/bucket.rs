//! Token buckets: how one is sized for a rate limit, and the calls into the
//! `leaky_bucket` crate that make one and read it.

use leaky_bucket::LeakyBucket;
use leaky_bucket::LeakyBuckets;
use std::time::Duration;
use vstd::prelude::*;

verus! {

/// The token bucket of `leaky_bucket`. Its state is not visible here.
#[verifier::external_type_specification]
#[verifier::external_body]
pub struct ExLeakyBucket(leaky_bucket::LeakyBucket);

/// The coordinator of `leaky_bucket` that buckets are registered with.
#[verifier::external_type_specification]
#[verifier::external_body]
pub struct ExLeakyBuckets(leaky_bucket::LeakyBuckets);

/// The error type of `leaky_bucket`.
#[verifier::external_type_specification]
#[verifier::external_body]
pub struct ExLeakyBucketError(leaky_bucket::Error);

/// The largest number of tokens that `bucket` was made to hold: what
/// `LeakyBucket::max` reads from it.
pub uninterp spec fn bucket_max(bucket: leaky_bucket::LeakyBucket) -> usize;

/// `LeakyBucket::max` hands back the maximum that the bucket was built with;
/// it reads a field that is never written after the build.
pub assume_specification[ leaky_bucket::LeakyBucket::max ](
    bucket: &leaky_bucket::LeakyBucket,
) -> (max: usize)
    ensures
        max == bucket_max(*bucket),
;

/// Tokens added at each refill for a limit of `limit` requests per second: a
/// tenth of the limit rounded to the nearest whole number (halves upwards),
/// at least one.
pub open spec fn refill_for(limit: usize) -> int {
    if (limit + 5) / 10 >= 1 {
        (limit + 5) / 10
    } else {
        1
    }
}

/// Tokens a new bucket starts with: half of the limit rounded to the nearest
/// whole number (halves upwards), at least one.
pub open spec fn tokens_for(limit: usize) -> int {
    if (limit + 1) / 2 >= 1 {
        (limit + 1) / 2
    } else {
        1
    }
}

/// Milliseconds between refills: a tenth of a second, or a whole second where
/// a refill adds a single token.
pub open spec fn interval_for(limit: usize) -> int {
    if refill_for(limit) == 1 {
        1000
    } else {
        100
    }
}

/// The four numbers a token bucket is made from.
#[derive(Clone, Copy, Debug, PartialEq, Eq, Structural)]
pub struct BucketPlan {
    /// Milliseconds between refills.
    pub refill_interval: u64,
    /// Tokens added at each refill.
    pub refill_amount: usize,
    /// Tokens to start with.
    pub tokens: usize,
    /// Most tokens the bucket holds.
    pub max: usize,
}

impl BucketPlan {
    /// The plan for a limit of `limit` requests per second.
    pub fn for_limit(limit: usize) -> (plan: BucketPlan)
        ensures
            plan.refill_amount == refill_for(limit),
            plan.tokens == tokens_for(limit),
            plan.refill_interval == interval_for(limit),
            plan.max == limit,
    {
        let tenth: usize = limit / 10 + if limit % 10 >= 5 {
            1usize
        } else {
            0usize
        };
        let half: usize = limit / 2 + limit % 2;
        let refill_amount: usize = if tenth >= 1 {
            tenth
        } else {
            1
        };
        let tokens: usize = if half >= 1 {
            half
        } else {
            1
        };
        let refill_interval: u64 = if refill_amount == 1 {
            1000
        } else {
            100
        };
        BucketPlan { refill_interval, refill_amount, tokens, max: limit }
    }
}

/// Registers a bucket made to `plan` with the coordinator `buckets`:
/// `LeakyBuckets::rate_limiter` opens the builder, its setters take the four
/// numbers of the plan, and `Builder::build` makes the bucket. The build
/// fails where the coordinator no longer takes new buckets; nothing is
/// claimed of when. A bucket that comes back holds at most `plan.max` tokens.
#[verifier::external_body]
pub(crate) fn start_bucket(buckets: &LeakyBuckets, plan: &BucketPlan) -> (built: Result<
    LeakyBucket,
    leaky_bucket::Error,
>)
    ensures
        built matches Ok(bucket) ==> bucket_max(bucket) == plan.max,
{
    buckets.rate_limiter().refill_interval(Duration::from_millis(plan.refill_interval)).refill_amount(
        plan.refill_amount,
    ).tokens(plan.tokens).max(plan.max).build()
}

/// A token bucket could not be made.
#[derive(Debug)]
pub struct BucketError {
    /// What the bucket's coordinator reported.
    pub source: leaky_bucket::Error,
}

/// What a build hands on, for every outcome of the registration: the bucket
/// as it came, or the coordinator's report as a `BucketError`.
pub fn handed_on(started: Result<LeakyBucket, leaky_bucket::Error>) -> (built: Result<
    LeakyBucket,
    BucketError,
>)
    ensures
        match started {
            Ok(bucket) => built == Ok::<LeakyBucket, BucketError>(bucket),
            Err(source) => built == Err::<LeakyBucket, BucketError>(BucketError { source }),
        },
{
    match started {
        Ok(bucket) => Ok(bucket),
        Err(source) => Err(BucketError { source }),
    }
}

} // verus!
