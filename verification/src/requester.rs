//! The per-scan controller: it decides when a policy must be enforced, moves
//! the rate limit up and down, swaps the token bucket, and says what a worker
//! does next with each URL.

use crate::bucket::bucket_max;
use crate::bucket::handed_on;
use crate::bucket::start_bucket;
use crate::bucket::BucketError;
use crate::bucket::BucketPlan;
use crate::policy::wait_time_ms;
use crate::policy::PolicyData;
use crate::policy::PolicyTrigger;
use crate::policy::PolicyView;
use crate::policy::RequesterPolicy;
use crate::scan::ScanState;
use crate::scan::ScanStatus;
use leaky_bucket::LeakyBucket;
use leaky_bucket::LeakyBuckets;
use vstd::prelude::*;

verus! {

/// Share of a scan's requests, in a hundred, from which 403 responses count
/// as excessive. A third of it is the mark for 429 responses.
pub const HIGH_ERROR_PERCENT: usize = 90;

/// Requests that must have been made, over all scans, before any trigger
/// fires: one round of the worker threads, and at least fifty.
pub open spec fn request_floor(threads: usize) -> usize {
    if threads >= 50 {
        threads
    } else {
        50
    }
}

/// Failed requests of one scan from which the `Errors` trigger fires: half
/// the number of worker threads, and at least twenty-five.
pub open spec fn error_floor(threads: usize) -> usize {
    if threads / 2 >= 25 {
        threads / 2
    } else {
        25
    }
}

/// `count` out of `requests` reaches the high error ratio divided by
/// `divisor`. With no requests at all, any count above zero reaches it.
pub open spec fn ratio_reached(count: usize, requests: usize, divisor: int) -> bool {
    if requests == 0 {
        count > 0
    } else {
        count * 100 * divisor >= requests * HIGH_ERROR_PERCENT
    }
}

/// The trigger that fires, if any. `Errors` goes before `Status403`, which
/// goes before `Status429`; during a pause and below the request floor none
/// fires.
pub open spec fn trigger_for(
    cooling_down: bool,
    threads: usize,
    total_requests: usize,
    scan: ScanState,
) -> Option<PolicyTrigger> {
    if cooling_down || total_requests < request_floor(threads) {
        None
    } else if scan.errors >= error_floor(threads) {
        Some(PolicyTrigger::Errors)
    } else if ratio_reached(scan.status_403s, scan.requests, 1) {
        Some(PolicyTrigger::Status403)
    } else if ratio_reached(scan.status_429s, scan.requests, 3) {
        Some(PolicyTrigger::Status429)
    } else {
        None
    }
}

/// `limiter` is a bucket made for `limit` requests per second.
pub open spec fn holds(limiter: Option<LeakyBucket>, limit: usize) -> bool {
    limiter matches Some(bucket) && bucket_max(bucket) == limit
}

/// `after` is what a request for `new_limit` leaves of the limiter `before`,
/// and `ok` whether the request succeeds.
///
/// A request for no limit always succeeds and leaves none. A request for the
/// limit that the bucket in place was made for succeeds and keeps that very
/// bucket. Any other request takes a new bucket: with one, it succeeds and
/// leaves a bucket made for the new limit; without one, it fails and the
/// limiter stays as it was.
pub open spec fn limiter_set(
    before: Option<LeakyBucket>,
    new_limit: Option<usize>,
    after: Option<LeakyBucket>,
    ok: bool,
) -> bool {
    match new_limit {
        None => ok && after is None,
        Some(limit) => if holds(before, limit) {
            ok && after == before
        } else if ok {
            holds(after, limit)
        } else {
            after == before
        },
    }
}

/// Asking twice for the same limit makes one bucket: the second request
/// succeeds and keeps the bucket that the first one left.
pub proof fn lemma_same_limit_keeps_bucket(
    before: Option<LeakyBucket>,
    limit: usize,
    first: Option<LeakyBucket>,
    second: Option<LeakyBucket>,
    ok: bool,
)
    requires
        limiter_set(before, Some(limit), first, true),
        limiter_set(first, Some(limit), second, ok),
    ensures
        ok,
        second == first,
{
}

/// What the rate control reads of the scanner's configuration.
#[derive(Clone, Copy, Debug, PartialEq, Eq, Structural)]
pub struct RequesterConfig {
    /// What to do when a trigger fires.
    pub requester_policy: RequesterPolicy,
    /// Request timeout in seconds.
    pub timeout: u64,
    /// Number of worker threads.
    pub threads: usize,
    /// Requests per second asked for; zero for no limit.
    pub rate_limit: usize,
    /// Tune the rate when a trigger fires.
    pub auto_tune: bool,
    /// Cancel the scan when a trigger fires.
    pub auto_bail: bool,
    /// Responses are not handed on for recursion.
    pub no_recursion: bool,
    /// Links are extracted from response bodies.
    pub extract_links: bool,
}

/// A lock that is taken without waiting, around the number of adjustments in
/// a row that found no new errors.
#[derive(Clone, Copy, Debug, PartialEq, Eq, Structural)]
pub struct TuningLock {
    /// Somebody holds the lock.
    pub held: bool,
    /// Adjustments in a row that found no new errors.
    pub streak: usize,
}

impl TuningLock {
    /// A free lock around a streak of zero.
    pub fn new() -> (lock: TuningLock)
        ensures
            lock == (TuningLock { held: false, streak: 0 }),
    {
        TuningLock { held: false, streak: 0 }
    }

    /// Take the lock if it is free; tells whether it was taken.
    pub fn try_lock(&mut self) -> (taken: bool)
        ensures
            taken == !old(self).held,
            *final(self) == (TuningLock { held: true, ..*old(self) }),
    {
        if self.held {
            return false;
        }
        self.held = true;
        true
    }

    /// Give the lock back.
    pub fn unlock(&mut self)
        ensures
            *final(self) == (TuningLock { held: false, ..*old(self) }),
    {
        self.held = false;
    }
}

/// Policy data and lock after the adjusting half of an adjustment that sees
/// `scan_errors` errors.
///
/// Behind a lock that somebody holds nothing moves. With more errors than at
/// the last adjustment the streak ends, the rate is lowered unless this is
/// the first adjustment, and the errors are noted. Otherwise the streak grows
/// by one and the rate is raised.
pub open spec fn adjusted(data: PolicyView, lock: TuningLock, scan_errors: usize) -> (
    PolicyView,
    TuningLock,
) {
    if lock.held {
        (data, lock)
    } else if scan_errors > data.errors {
        (
            PolicyView {
                errors: scan_errors,
                ..if data.errors != 0 {
                    data.lowered()
                } else {
                    data
                }
            },
            TuningLock { streak: 0, ..lock },
        )
    } else {
        (
            data.raised((lock.streak + 1) as usize),
            TuningLock { streak: (lock.streak + 1) as usize, ..lock },
        )
    }
}

/// The limiter follows policy data `data`: `after` is what is left of the
/// limiter `before`, and `ok` whether this succeeds.
///
/// Where the data say that the limit is to be dropped, the limiter goes.
/// Otherwise, if asked to, the limiter is set to the data's limit.
pub open spec fn follows(
    data: PolicyView,
    create_limiter: bool,
    before: Option<LeakyBucket>,
    after: Option<LeakyBucket>,
    ok: bool,
) -> bool {
    if data.remove_limit {
        ok && after is None
    } else if create_limiter {
        limiter_set(before, Some(data.limit), after, ok)
    } else {
        ok && after == before
    }
}

/// What tuning leaves behind once the limiter `seeded` is in place for the
/// limit that the tuning starts from.
///
/// The policy data are adjusted to the scan's errors and the limiter follows
/// them. Where that succeeds, the pause is entered and its length handed
/// out; where it fails, no pause is entered.
pub open spec fn tuned_from(
    seeded: Option<LeakyBucket>,
    before: RequesterView,
    scan_errors: usize,
    reqs_sec: usize,
    after: RequesterView,
    res: Result<Option<u64>, BucketError>,
) -> bool {
    let moved = adjusted(before.tuning_base(reqs_sec), before.tuning_lock, scan_errors);
    &&& after.tuning_lock == moved.1
    &&& follows(moved.0, true, seeded, after.rate_limiter, res is Ok)
    &&& match res {
        Ok(pause) => pause == moved.0.cleared().pause() && after.policy_data
            == moved.0.cleared().paused(),
        Err(_) => after.policy_data == moved.0.cleared(),
    }
}

/// `after` and `res` are what tuning leaves of `before`, for a scan with
/// `scan_errors` errors of the kind that triggered it and an observed rate of
/// `reqs_sec` requests per second.
///
/// The first tuning seeds the tree with the observed rate and sets the
/// limiter to half of it; where that fails, nothing else happens. Then the
/// limit is adjusted and the pause entered, as `tuned_from` says.
pub open spec fn tuned(
    before: RequesterView,
    scan_errors: usize,
    reqs_sec: usize,
    after: RequesterView,
    res: Result<Option<u64>, BucketError>,
) -> bool {
    let base = before.tuning_base(reqs_sec);
    &&& after.config == before.config
    &&& after.target_url == before.target_url
    &&& after.buckets == before.buckets
    &&& if before.policy_data.errors != 0 {
        tuned_from(before.rate_limiter, before, scan_errors, reqs_sec, after, res)
    } else {
        ||| {
            &&& res is Err
            &&& !holds(before.rate_limiter, base.limit)
            &&& after == (RequesterView { policy_data: base, ..before })
        }
        ||| exists|seeded: Option<LeakyBucket>|
            limiter_set(before.rate_limiter, Some(base.limit), seeded, true) && #[trigger] tuned_from(
                seeded,
                before,
                scan_errors,
                reqs_sec,
                after,
                res,
            )
    }
}

/// What has just happened to the URL that a worker is busy with.
#[derive(Clone, Copy, Debug, PartialEq, Eq, Structural)]
pub enum RequestEvent {
    /// The URL has been taken up.
    Started,
    /// The wait for a token is over; `acquired` is false where it failed.
    Limited { acquired: bool },
    /// The failed wait for a token has been counted as an error.
    ErrorRecorded,
    /// The request is over; `ok` is false where no response came.
    Responded { ok: bool },
    /// Tuning or bailing is over; `ok` is false where it failed.
    Enforced { ok: bool },
    /// The response has been handed on for recursion and the hand-over
    /// confirmed; `ok` is false where either failed.
    Recursed { ok: bool },
    /// The filters have seen the response; `hit` tells whether one of them
    /// matched, `redirect` whether the response is a redirection.
    Filtered { hit: bool, redirect: bool },
    /// Link extraction is over; `ok` is false where it failed.
    Extracted { ok: bool },
    /// The response has been reported, or the attempt has failed.
    Reported,
}

/// What a worker does next with the URL it is busy with.
#[derive(Clone, Copy, Debug, PartialEq, Eq, Structural)]
pub enum RequestAction {
    /// Wait for a token from the rate limiter.
    AcquireToken,
    /// Count the failed wait for a token as an error.
    RecordError,
    /// Send the request.
    SendRequest,
    /// Tune the rate limit because of the trigger.
    Tune(PolicyTrigger),
    /// Cancel the scan because of the trigger.
    Bail(PolicyTrigger),
    /// Hand the response on for recursion and wait for the confirmation.
    TryRecursion,
    /// Show the response to the filters.
    Filter,
    /// Extract links from the response body.
    ExtractLinks,
    /// Report the response.
    Report,
    /// Done with this URL; go on with the next.
    NextUrl,
    /// Give up on this URL and on those that would follow it.
    Abort,
}

/// Mathematical model of a [`Requester`].
pub struct RequesterView {
    /// What the rate control reads of the configuration.
    pub config: RequesterConfig,
    /// The URL that is scanned.
    pub target_url: Seq<char>,
    /// The token bucket in place, if any.
    pub rate_limiter: Option<LeakyBucket>,
    /// The policy in force and what the last adjustment left behind.
    pub policy_data: PolicyView,
    /// Lock and streak of the tuning.
    pub tuning_lock: TuningLock,
    /// The coordinator that new buckets are registered with.
    pub buckets: LeakyBuckets,
}

impl RequesterView {
    /// Requests may have to be limited: tuning is on or a rate was asked for.
    pub open spec fn should_tune(self) -> bool {
        self.config.auto_tune || self.config.rate_limit > 0
    }

    /// An adjustment that sees `scan_errors` errors can count it: the streak
    /// has room for one more wherever it is to grow.
    pub open spec fn adjustable(self, scan_errors: usize) -> bool {
        !self.tuning_lock.held && scan_errors <= self.policy_data.errors
            ==> self.tuning_lock.streak < usize::MAX
    }

    /// Tuning can go ahead: at the first tuning the tree takes the observed
    /// rate, and the adjustment can be counted.
    pub open spec fn tunable(self, scan_errors: usize, reqs_sec: usize) -> bool {
        &&& self.policy_data.errors == 0 ==> self.policy_data.accepts(reqs_sec)
        &&& self.adjustable(scan_errors)
    }

    /// Policy data that tuning starts from: seeded with the observed rate at
    /// the first tuning, as they are afterwards.
    pub open spec fn tuning_base(self, reqs_sec: usize) -> PolicyView {
        if self.policy_data.errors == 0 {
            self.policy_data.seeded(reqs_sec)
        } else {
            self.policy_data
        }
    }

    /// The step that follows the enforcement of the policy.
    pub open spec fn after_enforcement(self) -> RequestAction {
        if !self.config.no_recursion {
            RequestAction::TryRecursion
        } else {
            RequestAction::Filter
        }
    }

    /// The step that follows a response: tuning or bailing where the policy
    /// asks for it and a trigger fires.
    pub open spec fn enforcement(self, total_requests: usize, scan: ScanState) -> RequestAction {
        let trigger = trigger_for(
            self.policy_data.cooling_down,
            self.config.threads,
            total_requests,
            scan,
        );
        if (self.should_tune() || self.config.auto_bail) && !self.policy_data.cooling_down {
            match (self.policy_data.policy, trigger) {
                (RequesterPolicy::AutoTune, Some(fired)) => RequestAction::Tune(fired),
                (RequesterPolicy::AutoBail, Some(fired)) => RequestAction::Bail(fired),
                _ => self.after_enforcement(),
            }
        } else {
            self.after_enforcement()
        }
    }

    /// The step that follows `event`.
    ///
    /// A token is waited for where requests may have to be limited and a
    /// limiter is in place; a failed wait is counted and the request goes out
    /// all the same. After the response the policy is enforced, the response
    /// is handed on for recursion unless that is switched off, and shown to
    /// the filters. What a filter matches is dropped. Of the rest, links are
    /// extracted where that is switched on and the response is no
    /// redirection, and the response is reported. A failed request,
    /// enforcement, recursion or extraction ends the work on the URL.
    pub open spec fn next_action(
        self,
        event: RequestEvent,
        total_requests: usize,
        scan: ScanState,
    ) -> RequestAction {
        match event {
            RequestEvent::Started => if self.should_tune() && self.rate_limiter is Some {
                RequestAction::AcquireToken
            } else {
                RequestAction::SendRequest
            },
            RequestEvent::Limited { acquired } => if acquired {
                RequestAction::SendRequest
            } else {
                RequestAction::RecordError
            },
            RequestEvent::ErrorRecorded => RequestAction::SendRequest,
            RequestEvent::Responded { ok } => if ok {
                self.enforcement(total_requests, scan)
            } else {
                RequestAction::Abort
            },
            RequestEvent::Enforced { ok } => if ok {
                self.after_enforcement()
            } else {
                RequestAction::Abort
            },
            RequestEvent::Recursed { ok } => if ok {
                RequestAction::Filter
            } else {
                RequestAction::Abort
            },
            RequestEvent::Filtered { hit, redirect } => if hit {
                RequestAction::NextUrl
            } else if self.config.extract_links && !redirect {
                RequestAction::ExtractLinks
            } else {
                RequestAction::Report
            },
            RequestEvent::Extracted { ok } => if ok {
                RequestAction::Report
            } else {
                RequestAction::Abort
            },
            RequestEvent::Reported => RequestAction::NextUrl,
        }
    }
}

/// While one pause is under way no second one begins, and entering a pause
/// twice is entering it once.
pub proof fn lemma_one_pause_at_a_time(data: PolicyView)
    ensures
        data.paused().pause() is None,
        data.paused().paused() == data.paused(),
        !data.cooling_down ==> data.pause() == Some(data.wait_time),
{
}

/// Controls the requests of one scan.
pub struct Requester {
    /// What the rate control reads of the configuration.
    pub config: RequesterConfig,
    /// The URL that is scanned.
    pub target_url: String,
    /// Limits the requests per second, if present.
    pub rate_limiter: Option<LeakyBucket>,
    /// The policy in force and what the last adjustment left behind.
    pub policy_data: PolicyData,
    /// Lets one adjustment happen at a time and counts the adjustments in a
    /// row that found no new errors.
    pub tuning_lock: TuningLock,
    /// The coordinator that new buckets are registered with.
    pub buckets: LeakyBuckets,
}

impl View for Requester {
    type V = RequesterView;

    open spec fn view(&self) -> RequesterView {
        RequesterView {
            config: self.config,
            target_url: self.target_url@,
            rate_limiter: self.rate_limiter,
            policy_data: self.policy_data@,
            tuning_lock: self.tuning_lock,
            buckets: self.buckets,
        }
    }
}

impl Requester {
    /// A requester for the scan of `target_url`. Where the configuration asks
    /// for a rate, a bucket for that rate is in place from the start.
    pub fn from(config: RequesterConfig, target_url: String, buckets: LeakyBuckets) -> (made: Result<
        Requester,
        BucketError,
    >)
        ensures
            match made {
                Ok(requester) => {
                    &&& requester@.config == config
                    &&& requester@.target_url == target_url@
                    &&& requester@.buckets == buckets
                    &&& requester@.policy_data.is_fresh(
                        config.requester_policy,
                        wait_time_ms(config.timeout),
                    )
                    &&& requester@.tuning_lock == (TuningLock { held: false, streak: 0 })
                    &&& if config.rate_limit > 0 {
                        holds(requester@.rate_limiter, config.rate_limit)
                    } else {
                        requester@.rate_limiter is None
                    }
                },
                Err(_) => config.rate_limit > 0,
            },
    {
        let limit: usize = config.rate_limit;

        let rate_limiter = if limit > 0 {
            match Self::build_a_bucket(&buckets, limit) {
                Ok(bucket) => Some(bucket),
                Err(error) => {
                    return Err(error);
                },
            }
        } else {
            None
        };

        let policy_data = PolicyData::new(config.requester_policy, config.timeout);

        Ok(
            Requester {
                config,
                target_url,
                rate_limiter,
                policy_data,
                tuning_lock: TuningLock::new(),
                buckets,
            },
        )
    }

    /// Make a bucket for `limit` requests per second and register it with
    /// `buckets`. The bucket is made to `BucketPlan::for_limit(limit)`, and
    /// what the registration gives is handed on as `handed_on` says. Whether
    /// it succeeds is the coordinator's to say; a bucket that comes back was
    /// made for `limit`.
    pub fn build_a_bucket(buckets: &LeakyBuckets, limit: usize) -> (built: Result<
        LeakyBucket,
        BucketError,
    >)
        ensures
            built matches Ok(bucket) ==> bucket_max(bucket) == limit,
    {
        let plan = BucketPlan::for_limit(limit);
        handed_on(start_bucket(buckets, &plan))
    }

    /// Enter the pause that follows an adjustment, unless one is under way.
    /// Returns the milliseconds that the caller has to sit out before it ends
    /// the pause, or nothing where somebody else is already doing so.
    pub fn cool_down(&mut self) -> (pause: Option<u64>)
        ensures
            pause == old(self)@.policy_data.pause(),
            final(self)@ == (RequesterView {
                policy_data: old(self)@.policy_data.paused(),
                ..old(self)@
            }),
    {
        if self.policy_data.cooling_down {
            return None;
        }
        self.policy_data.cooling_down = true;
        Some(self.policy_data.wait_time)
    }

    /// End the pause that `cool_down` began.
    pub fn end_cool_down(&mut self)
        ensures
            final(self)@ == (RequesterView {
                policy_data: old(self)@.policy_data.resumed(),
                ..old(self)@
            }),
    {
        self.policy_data.cooling_down = false;
    }

    /// The bucket that the next request has to take a token from.
    pub fn limit(&self) -> (bucket: &LeakyBucket)
        requires
            self@.rate_limiter is Some,
        ensures
            self@.rate_limiter == Some(*bucket),
    {
        self.rate_limiter.as_ref().unwrap()
    }

    /// Whether the scan has seen too many failed requests.
    pub fn too_many_errors(&self, scan: &ScanState) -> (too_many: bool)
        ensures
            too_many == (scan.errors >= error_floor(self@.config.threads)),
    {
        let total: usize = scan.num_errors(PolicyTrigger::Errors);

        let half: usize = self.config.threads / 2;
        let threshold: usize = if half >= 25 {
            half
        } else {
            25
        };

        total >= threshold
    }

    /// Whether too large a share of the scan's requests met the status that
    /// `trigger` watches: the high error ratio for 403, a third of it for
    /// 429. Never for `Errors`.
    pub fn too_many_status_errors(&self, trigger: PolicyTrigger, scan: &ScanState) -> (too_many:
        bool)
        ensures
            too_many == match trigger {
                PolicyTrigger::Status403 => ratio_reached(scan.status_403s, scan.requests, 1),
                PolicyTrigger::Status429 => ratio_reached(scan.status_429s, scan.requests, 3),
                PolicyTrigger::Errors => false,
            },
    {
        let total: u128 = scan.num_errors(trigger) as u128;
        let requests: u128 = scan.requests() as u128;
        let high: u128 = HIGH_ERROR_PERCENT as u128;

        if requests == 0 {
            return match trigger {
                PolicyTrigger::Errors => false,
                _ => total > 0,
            };
        }
        match trigger {
            PolicyTrigger::Status403 => total * 100 >= requests * high,
            PolicyTrigger::Status429 => total * 100 * 3 >= requests * high,
            PolicyTrigger::Errors => false,
        }
    }

    /// Whether a policy has to be enforced, and because of what.
    ///
    /// Nothing fires during a pause, nor before `total_requests`, the
    /// requests of all scans together, has reached the request floor.
    pub fn should_enforce_policy(&self, total_requests: usize, scan: &ScanState) -> (trigger:
        Option<PolicyTrigger>)
        ensures
            trigger == trigger_for(
                self@.policy_data.cooling_down,
                self@.config.threads,
                total_requests,
                *scan,
            ),
            total_requests < request_floor(self@.config.threads) ==> trigger is None,
    {
        if self.policy_data.cooling_down {
            return None;
        }
        let floor: usize = if self.config.threads >= 50 {
            self.config.threads
        } else {
            50
        };

        if total_requests < floor {
            return None;
        }
        if self.too_many_errors(scan) {
            return Some(PolicyTrigger::Errors);
        }
        if self.too_many_status_errors(PolicyTrigger::Status403, scan) {
            return Some(PolicyTrigger::Status403);
        }
        if self.too_many_status_errors(PolicyTrigger::Status429, scan) {
            return Some(PolicyTrigger::Status429);
        }
        None
    }

    /// Put the outcome of a bucket build in place: a bucket becomes the
    /// limiter, a failure is handed on and leaves the limiter as it was.
    pub fn install(&mut self, built: Result<LeakyBucket, BucketError>) -> (res: Result<
        (),
        BucketError,
    >)
        ensures
            match built {
                Ok(bucket) => res is Ok && final(self)@ == (RequesterView {
                    rate_limiter: Some(bucket),
                    ..old(self)@
                }),
                Err(error) => res == Err::<(), BucketError>(error) && final(self)@ == old(self)@,
            },
    {
        match built {
            Ok(bucket) => {
                self.rate_limiter = Some(bucket);
                Ok(())
            },
            Err(error) => Err(error),
        }
    }

    /// Set the limiter to `new_limit` requests per second, or drop it.
    ///
    /// A new bucket is made only where the one in place was not made for
    /// `new_limit`; success is certain wherever none has to be made.
    pub fn set_rate_limiter(&mut self, new_limit: Option<usize>) -> (res: Result<(), BucketError>)
        ensures
            limiter_set(
                old(self)@.rate_limiter,
                new_limit,
                final(self)@.rate_limiter,
                res is Ok,
            ),
            final(self)@ == (RequesterView {
                rate_limiter: final(self)@.rate_limiter,
                ..old(self)@
            }),
    {
        match new_limit {
            None => {
                self.rate_limiter = None;
                Ok(())
            },
            Some(limit) => {
                let in_place: bool = match &self.rate_limiter {
                    Some(bucket) => bucket.max() == limit,
                    None => false,
                };
                if in_place {
                    return Ok(());
                }
                let built = Self::build_a_bucket(&self.buckets, limit);
                self.install(built)
            },
        }
    }

    /// Adjust the rate limit to what the scan's errors say, and let the
    /// limiter follow.
    ///
    /// The adjusting half happens only where the tuning lock is free; the
    /// limiter follows the policy data in either case.
    pub fn adjust_limit(&mut self, trigger: PolicyTrigger, create_limiter: bool, scan: &ScanState) -> (res:
        Result<(), BucketError>)
        requires
            old(self)@.adjustable(scan.count(trigger)),
        ensures
            final(self)@.config == old(self)@.config,
            final(self)@.target_url == old(self)@.target_url,
            final(self)@.buckets == old(self)@.buckets,
            final(self)@.tuning_lock == adjusted(
                old(self)@.policy_data,
                old(self)@.tuning_lock,
                scan.count(trigger),
            ).1,
            final(self)@.policy_data == adjusted(
                old(self)@.policy_data,
                old(self)@.tuning_lock,
                scan.count(trigger),
            ).0.cleared(),
            follows(
                adjusted(old(self)@.policy_data, old(self)@.tuning_lock, scan.count(trigger)).0,
                create_limiter,
                old(self)@.rate_limiter,
                final(self)@.rate_limiter,
                res is Ok,
            ),
    {
        let scan_errors: usize = scan.num_errors(trigger);
        let policy_errors: usize = self.policy_data.errors;

        if self.tuning_lock.try_lock() {
            if scan_errors > policy_errors {
                self.tuning_lock.streak = 0;
                if self.policy_data.errors != 0 {
                    self.policy_data.adjust_down();
                }
                self.policy_data.set_errors(scan_errors);
            } else {
                self.tuning_lock.streak += 1;
                let streak: usize = self.tuning_lock.streak;
                self.policy_data.adjust_up(&streak);
            }
            self.tuning_lock.unlock();
        }
        if self.policy_data.remove_limit {
            match self.set_rate_limiter(None) {
                Ok(_) => {},
                Err(error) => {
                    return Err(error);
                },
            }
            self.policy_data.remove_limit = false;
        } else if create_limiter {
            let new_limit: usize = self.policy_data.get_limit();
            return self.set_rate_limiter(Some(new_limit));
        }
        Ok(())
    }

    /// Whether `adjust_limit` may be called for `trigger` and `scan`.
    pub fn can_adjust_limit(&self, trigger: PolicyTrigger, scan: &ScanState) -> (ok: bool)
        ensures
            ok == self@.adjustable(scan.count(trigger)),
    {
        self.tuning_lock.held || scan.num_errors(trigger) > self.policy_data.errors
            || self.tuning_lock.streak < usize::MAX
    }

    /// Whether `tune` may be called for `trigger`, `scan` and an observed
    /// rate of `reqs_sec`.
    pub fn can_tune(&self, trigger: PolicyTrigger, scan: &ScanState, reqs_sec: usize) -> (ok: bool)
        ensures
            ok == self@.tunable(scan.count(trigger), reqs_sec),
    {
        if self.policy_data.errors == 0 && !self.policy_data.can_set_reqs_sec(reqs_sec) {
            return false;
        }
        self.can_adjust_limit(trigger, scan)
    }

    /// Enforce the tuning policy: at the first tuning seed the tree with the
    /// observed rate `reqs_sec` and set the limiter to half of it; adjust the
    /// limit to the scan's errors; enter the pause.
    ///
    /// Returns the milliseconds that the caller has to sit out before it ends
    /// the pause, or nothing where a pause was under way already. It fails
    /// only where a bucket that it needs cannot be made.
    pub fn tune(&mut self, trigger: PolicyTrigger, scan: &ScanState, reqs_sec: usize) -> (res:
        Result<Option<u64>, BucketError>)
        requires
            old(self)@.tunable(scan.count(trigger), reqs_sec),
        ensures
            tuned(old(self)@, scan.count(trigger), reqs_sec, final(self)@, res),
    {
        if self.policy_data.errors == 0 {
            self.policy_data.set_reqs_sec(reqs_sec);

            let new_limit: usize = self.policy_data.get_limit();
            match self.set_rate_limiter(Some(new_limit)) {
                Ok(_) => {},
                Err(error) => {
                    return Err(error);
                },
            }
        }
        let ghost seeded = self.rate_limiter;

        match self.adjust_limit(trigger, true, scan) {
            Ok(_) => {},
            Err(error) => {
                assert(tuned_from(
                    seeded,
                    old(self)@,
                    scan.count(trigger),
                    reqs_sec,
                    self@,
                    Err::<Option<u64>, BucketError>(error),
                ));
                return Err(error);
            },
        }
        let pause = self.cool_down();
        assert(tuned_from(seeded, old(self)@, scan.count(trigger), reqs_sec, self@, Ok(pause)));
        Ok(pause)
    }

    /// Cancel the scan if it is running. Returns the number of errors of the
    /// kind that `trigger` watches; nothing, and no change, where the scan is
    /// not running.
    pub fn bail(&self, trigger: PolicyTrigger, scan: &mut ScanState) -> (bailed: Option<usize>)
        ensures
            old(scan).active() ==> *final(scan) == (ScanState {
                status: ScanStatus::Cancelled,
                ..*old(scan)
            }) && bailed == Some(old(scan).count(trigger)),
            !old(scan).active() ==> *final(scan) == *old(scan) && bailed is None,
    {
        if scan.is_active() {
            scan.set_status(ScanStatus::Cancelled);
            return Some(scan.num_errors(trigger));
        }
        None
    }

    /// What the worker does next with the URL it is busy with, after `event`.
    pub fn request(&self, event: RequestEvent, total_requests: usize, scan: &ScanState) -> (action:
        RequestAction)
        ensures
            action == self@.next_action(event, total_requests, *scan),
    {
        let should_tune: bool = self.config.auto_tune || self.config.rate_limit > 0;
        match event {
            RequestEvent::Started => {
                let should_limit: bool = should_tune && self.rate_limiter.is_some();
                if should_limit {
                    RequestAction::AcquireToken
                } else {
                    RequestAction::SendRequest
                }
            },
            RequestEvent::Limited { acquired } => {
                if acquired {
                    RequestAction::SendRequest
                } else {
                    RequestAction::RecordError
                }
            },
            RequestEvent::ErrorRecorded => RequestAction::SendRequest,
            RequestEvent::Responded { ok } => {
                if !ok {
                    return RequestAction::Abort;
                }
                if (should_tune || self.config.auto_bail) && !self.policy_data.cooling_down {
                    match self.policy_data.policy {
                        RequesterPolicy::AutoTune => {
                            if let Some(trigger) = self.should_enforce_policy(total_requests, scan) {
                                return RequestAction::Tune(trigger);
                            }
                        },
                        RequesterPolicy::AutoBail => {
                            if let Some(trigger) = self.should_enforce_policy(total_requests, scan) {
                                return RequestAction::Bail(trigger);
                            }
                        },
                        RequesterPolicy::Default => {},
                    }
                }
                self.after_enforcement()
            },
            RequestEvent::Enforced { ok } => {
                if ok {
                    self.after_enforcement()
                } else {
                    RequestAction::Abort
                }
            },
            RequestEvent::Recursed { ok } => {
                if ok {
                    RequestAction::Filter
                } else {
                    RequestAction::Abort
                }
            },
            RequestEvent::Filtered { hit, redirect } => {
                if hit {
                    RequestAction::NextUrl
                } else if self.config.extract_links && !redirect {
                    RequestAction::ExtractLinks
                } else {
                    RequestAction::Report
                }
            },
            RequestEvent::Extracted { ok } => {
                if ok {
                    RequestAction::Report
                } else {
                    RequestAction::Abort
                }
            },
            RequestEvent::Reported => RequestAction::NextUrl,
        }
    }

    /// The step that follows the enforcement of the policy: recursion unless
    /// it is switched off, the filters otherwise.
    fn after_enforcement(&self) -> (action: RequestAction)
        ensures
            action == self@.after_enforcement(),
    {
        if !self.config.no_recursion {
            RequestAction::TryRecursion
        } else {
            RequestAction::Filter
        }
    }
}

} // verus!
