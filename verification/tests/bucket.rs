use leaky_bucket::LeakyBuckets;
use rate_policy::bucket::handed_on;
use rate_policy::bucket::BucketPlan;
use rate_policy::requester::Requester;

fn plan(refill_interval: u64, refill_amount: usize, tokens: usize, max: usize) -> BucketPlan {
    BucketPlan {
        refill_interval,
        refill_amount,
        tokens,
        max,
    }
}

#[test]
fn plan_for_a_hundred_requests_per_second() {
    // a tenth every tenth of a second, half to start with
    assert_eq!(BucketPlan::for_limit(100), plan(100, 10, 50, 100));
    assert_eq!(BucketPlan::for_limit(200), plan(100, 20, 100, 200));
    assert_eq!(BucketPlan::for_limit(400), plan(100, 40, 200, 400));
}

#[test]
fn plan_rounds_to_the_nearest_token() {
    // 2.4 -> 2, 12 stays
    assert_eq!(BucketPlan::for_limit(24), plan(100, 2, 12, 24));
    // 2.5 -> 3, 12.5 -> 13
    assert_eq!(BucketPlan::for_limit(25), plan(100, 3, 13, 25));
    // 4.3 -> 4, 21.5 -> 22
    assert_eq!(BucketPlan::for_limit(43), plan(100, 4, 22, 43));
    // 1.5 -> 2, 7.5 -> 8
    assert_eq!(BucketPlan::for_limit(15), plan(100, 2, 8, 15));
}

#[test]
fn plan_refills_once_a_second_where_a_refill_is_one_token() {
    // 1.4 -> 1
    assert_eq!(BucketPlan::for_limit(14), plan(1000, 1, 7, 14));
    assert_eq!(BucketPlan::for_limit(10), plan(1000, 1, 5, 10));
    // 0.5 -> 1
    assert_eq!(BucketPlan::for_limit(5), plan(1000, 1, 3, 5));
}

#[test]
fn plan_never_goes_below_one_token() {
    assert_eq!(BucketPlan::for_limit(0), plan(1000, 1, 1, 0));
    assert_eq!(BucketPlan::for_limit(1), plan(1000, 1, 1, 1));
    assert_eq!(BucketPlan::for_limit(2), plan(1000, 1, 1, 2));
    assert_eq!(BucketPlan::for_limit(3), plan(1000, 1, 2, 3));
    assert_eq!(BucketPlan::for_limit(4), plan(1000, 1, 2, 4));
}

#[test]
fn plan_for_the_largest_limit() {
    let largest = BucketPlan::for_limit(usize::MAX);
    assert_eq!(largest.max, usize::MAX);
    assert_eq!(largest.refill_interval, 100);
    assert_eq!(largest.refill_amount, usize::MAX / 10 + 1);
    assert_eq!(largest.tokens, usize::MAX / 2 + 1);
}

#[test]
fn built_bucket_holds_the_limit_it_was_asked_for() {
    let buckets = LeakyBuckets::new();
    for limit in [0usize, 1, 7, 200, 100_000] {
        let bucket = Requester::build_a_bucket(&buckets, limit).unwrap();
        assert_eq!(bucket.max(), limit);
    }
}

#[test]
fn built_bucket_starts_with_the_planned_tokens() {
    let buckets = LeakyBuckets::new();
    let bucket = Requester::build_a_bucket(&buckets, 100).unwrap();
    assert_eq!(bucket.tokens(), 50);
    let bucket = Requester::build_a_bucket(&buckets, 15).unwrap();
    assert_eq!(bucket.tokens(), 8);
}

#[test]
fn build_fails_once_the_coordinator_is_gone() {
    let mut buckets = LeakyBuckets::new();
    assert!(Requester::build_a_bucket(&buckets, 10).is_ok());
    drop(buckets.coordinate().unwrap());
    let error = Requester::build_a_bucket(&buckets, 10).err().unwrap();
    assert!(matches!(error.source, leaky_bucket::Error::NewTaskError));
}

#[test]
fn built_bucket_refills_as_planned() {
    let buckets = LeakyBuckets::new();
    let bucket = Requester::build_a_bucket(&buckets, 100).unwrap();
    assert_eq!(
        format!("{:?}", bucket),
        "LeakyBucket { tokens: 50, max: 100, refill_interval: 100ms, refill_amount: 10 }"
    );
    let bucket = Requester::build_a_bucket(&buckets, 14).unwrap();
    assert_eq!(
        format!("{:?}", bucket),
        "LeakyBucket { tokens: 7, max: 14, refill_interval: 1s, refill_amount: 1 }"
    );
    // more tokens to start with than the bucket holds: it starts full
    let bucket = Requester::build_a_bucket(&buckets, 0).unwrap();
    assert_eq!(
        format!("{:?}", bucket),
        "LeakyBucket { tokens: 0, max: 0, refill_interval: 1s, refill_amount: 1 }"
    );
}

#[test]
fn handed_on_keeps_the_bucket_and_wraps_the_failure() {
    let mut buckets = LeakyBuckets::new();
    let started = buckets.rate_limiter().max(5).tokens(2).build();
    let bucket = handed_on(started).unwrap();
    assert_eq!(bucket.max(), 5);
    assert_eq!(bucket.tokens(), 2);

    drop(buckets.coordinate().unwrap());
    let failed = buckets.rate_limiter().max(5).build();
    assert!(failed.is_err());
    let error = handed_on(failed).err().unwrap();
    assert!(matches!(error.source, leaky_bucket::Error::NewTaskError));
}
