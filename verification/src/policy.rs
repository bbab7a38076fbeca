//! What triggers an intervention, what the intervention is, and the state that
//! the tuning keeps between adjustments.

use crate::limit_heap::lemma_blank_buildable;
use crate::limit_heap::lemma_blank_build_ordered;
use crate::limit_heap::left_value;
use crate::limit_heap::right_value;
use crate::limit_heap::HeapView;
use crate::limit_heap::LimitHeap;
use vstd::prelude::*;

verus! {

/// The reason for an intervention.
#[derive(Clone, Copy, Debug, PartialEq, Eq, Structural)]
pub enum PolicyTrigger {
    /// Too large a share of the responses were 403s.
    Status403,
    /// Too large a share of the responses were 429s.
    Status429,
    /// Too many requests failed outright.
    Errors,
}

/// What to do when a trigger fires.
#[derive(Clone, Copy, Debug, PartialEq, Eq, Structural)]
pub enum RequesterPolicy {
    /// Do nothing.
    Default,
    /// Tune the rate limit to what the target sustains.
    AutoTune,
    /// Cancel the scan.
    AutoBail,
}

impl Default for RequesterPolicy {
    fn default() -> (policy: RequesterPolicy)
        ensures
            policy == RequesterPolicy::Default,
    {
        RequesterPolicy::Default
    }
}

/// Length of the pause after an adjustment, in milliseconds: half of the
/// request timeout, held at the largest value where it would not fit.
pub open spec fn wait_time_ms(timeout: u64) -> u64 {
    if timeout * 500 <= u64::MAX {
        (timeout * 500) as u64
    } else {
        u64::MAX
    }
}

/// Mathematical model of a [`PolicyData`].
pub struct PolicyView {
    /// What to do when a trigger fires.
    pub policy: RequesterPolicy,
    /// A pause after an adjustment is under way.
    pub cooling_down: bool,
    /// Length of the pause after an adjustment, in milliseconds.
    pub wait_time: u64,
    /// Rate limit in requests per second, as of the last adjustment.
    pub limit: usize,
    /// Number of errors seen, as of the last adjustment.
    pub errors: usize,
    /// The limiter is to be dropped.
    pub remove_limit: bool,
    /// Candidate rates and the cursor on the one in force.
    pub heap: HeapView,
}

impl PolicyView {
    /// Nothing adjusted yet: a tree of zeroes, every counter at zero, every
    /// flag down.
    pub open spec fn is_fresh(self, policy: RequesterPolicy, wait_time: u64) -> bool {
        &&& self.policy == policy
        &&& self.wait_time == wait_time
        &&& !self.cooling_down
        &&& self.limit == 0
        &&& self.errors == 0
        &&& !self.remove_limit
        &&& self.heap.wf()
        &&& self.heap.is_blank()
        &&& self.heap.original == 0
        &&& self.heap.current == 0
    }

    /// The tree can be seeded with `reqs_sec`: the rate is a 32-bit signed
    /// value and the build stays within 32-bit signed arithmetic.
    pub open spec fn accepts(self, reqs_sec: usize) -> bool {
        &&& reqs_sec <= i32::MAX
        &&& self.heap.with_original(reqs_sec as i32).buildable()
    }

    /// The tree is seeded with the observed rate and built, and the limit is
    /// the root: half of the observed rate.
    pub open spec fn seeded(self, reqs_sec: usize) -> PolicyView {
        PolicyView {
            heap: self.heap.with_original(reqs_sec as i32).built(),
            limit: (reqs_sec / 2) as usize,
            ..self
        }
    }

    /// What entering a pause hands out: the milliseconds to sit out, or
    /// nothing where a pause is under way already.
    pub open spec fn pause(self) -> Option<u64> {
        if self.cooling_down {
            None
        } else {
            Some(self.wait_time)
        }
    }

    /// Nothing asks for the limiter to be dropped.
    pub open spec fn cleared(self) -> PolicyView {
        PolicyView { remove_limit: false, ..self }
    }

    /// A pause is under way.
    pub open spec fn paused(self) -> PolicyView {
        PolicyView { cooling_down: true, ..self }
    }

    /// No pause is under way.
    pub open spec fn resumed(self) -> PolicyView {
        PolicyView { cooling_down: false, ..self }
    }

    /// The cursor is on `heap` and the limit is the value under it. A value
    /// below zero is taken as the machine's cast takes it: it wraps to the
    /// top of the range.
    pub open spec fn limited_at(self, heap: HeapView) -> PolicyView {
        PolicyView { heap, limit: heap.value() as usize, ..self }
    }

    /// The rate is lowered: the cursor steps to the right child and the limit
    /// follows. At a leaf nothing changes.
    pub open spec fn lowered(self) -> PolicyView {
        if self.heap.has_children() {
            self.limited_at(self.heap.move_right())
        } else {
            self
        }
    }

    /// The rate is raised after `streak` adjustments in a row without new
    /// errors.
    ///
    /// A streak of more than two backs out two levels, and a third where the
    /// node reached is still smaller and has a larger parent; where it is
    /// still smaller and is the root, the limit is to be dropped. A shorter
    /// streak steps to the left child. At a leaf the cursor backs out two
    /// levels, and a third where the node reached is smaller. The limit
    /// follows the cursor.
    pub open spec fn raised(self, streak: usize) -> PolicyView {
        let backed = self.heap.move_up().move_up();
        if streak > 2 {
            if self.heap.value() <= backed.value() {
                self.limited_at(backed)
            } else if backed.has_parent() {
                if backed.parent_value() > self.heap.value() {
                    self.limited_at(backed.move_up())
                } else {
                    self.limited_at(backed)
                }
            } else {
                PolicyView { remove_limit: true, ..self.limited_at(backed) }
            }
        } else if self.heap.has_children() {
            self.limited_at(self.heap.move_left())
        } else if self.heap.value() > backed.value() {
            self.limited_at(backed.move_up())
        } else {
            self.limited_at(backed)
        }
    }
}

/// Fresh policy data take any observed rate that is a 32-bit signed value.
/// Seeded, the limit is half of the rate, the cursor is on the root, and
/// every node with children lies between them.
pub proof fn lemma_fresh_data_take_any_rate(data: PolicyView, reqs_sec: usize)
    requires
        data.heap.wf(),
        data.heap.is_blank(),
        reqs_sec <= i32::MAX,
    ensures
        data.accepts(reqs_sec),
        data.seeded(reqs_sec).limit == reqs_sec / 2,
        data.seeded(reqs_sec).heap.current == 0,
        data.seeded(reqs_sec).heap.inner[0] == reqs_sec / 2,
        forall|node: int|
            0 <= node <= 126 ==> data.seeded(reqs_sec).heap.inner[2 * node + 1]
                >= #[trigger] data.seeded(reqs_sec).heap.inner[node] >= data.seeded(
                reqs_sec,
            ).heap.inner[2 * node + 2],
{
    lemma_blank_buildable(data.heap.with_original(reqs_sec as i32));
    lemma_blank_build_ordered(data.heap.with_original(reqs_sec as i32));
}

/// Seeded with an observed rate of zero, fresh policy data hold a tree of
/// zeroes and a limit of zero.
pub proof fn lemma_zero_rate_seeds_zeroes(data: PolicyView)
    requires
        data.heap.wf(),
        data.heap.is_blank(),
    ensures
        data.accepts(0),
        data.seeded(0).limit == 0,
        data.seeded(0).heap.is_blank(),
{
    lemma_blank_buildable(data.heap.with_original(0));
}

/// The policy in force and what the last adjustment left behind.
#[derive(Debug)]
pub struct PolicyData {
    /// What to do when a trigger fires.
    pub policy: RequesterPolicy,
    /// A pause after an adjustment is under way.
    pub cooling_down: bool,
    /// Length of the pause after an adjustment, in milliseconds.
    pub wait_time: u64,
    /// Rate limit in requests per second, as of the last adjustment.
    pub limit: usize,
    /// Number of errors seen, as of the last adjustment.
    pub errors: usize,
    /// The scan has earned running without a limit; whoever owns the limiter
    /// drops it and clears this flag.
    pub remove_limit: bool,
    /// Candidate rates and the cursor on the one in force.
    pub heap: LimitHeap,
}

impl View for PolicyData {
    type V = PolicyView;

    open spec fn view(&self) -> PolicyView {
        PolicyView {
            policy: self.policy,
            cooling_down: self.cooling_down,
            wait_time: self.wait_time,
            limit: self.limit,
            errors: self.errors,
            remove_limit: self.remove_limit,
            heap: self.heap@,
        }
    }
}

impl Default for PolicyData {
    fn default() -> (data: PolicyData)
        ensures
            data@.is_fresh(RequesterPolicy::Default, 0),
    {
        PolicyData {
            policy: RequesterPolicy::Default,
            cooling_down: false,
            wait_time: 0,
            limit: 0,
            errors: 0,
            remove_limit: false,
            heap: LimitHeap::default(),
        }
    }
}

impl PolicyData {
    /// State for `policy` with a pause of half of `timeout` seconds; nothing
    /// adjusted yet and a tree of zeroes.
    pub fn new(policy: RequesterPolicy, timeout: u64) -> (data: PolicyData)
        ensures
            data@.is_fresh(policy, wait_time_ms(timeout)),
    {
        let wait_time: u64 = match timeout.checked_mul(500) {
            Some(milliseconds) => milliseconds,
            None => u64::MAX,
        };
        PolicyData {
            policy,
            cooling_down: false,
            wait_time,
            limit: 0,
            errors: 0,
            remove_limit: false,
            heap: LimitHeap::default(),
        }
    }

    /// Whether `set_reqs_sec` may be called with `reqs_sec`.
    pub fn can_set_reqs_sec(&self, reqs_sec: usize) -> (ok: bool)
        ensures
            ok == self@.accepts(reqs_sec),
    {
        if reqs_sec > i32::MAX as usize {
            return false;
        }
        self.heap.can_build(reqs_sec as i32)
    }

    /// Seed the tree with the observed rate, build it, and start at the root:
    /// the limit becomes half of the observed rate.
    pub fn set_reqs_sec(&mut self, reqs_sec: usize)
        requires
            old(self)@.accepts(reqs_sec),
        ensures
            final(self)@ == old(self)@.seeded(reqs_sec),
            final(self).heap@.original == reqs_sec,
            final(self).heap@.current == 0,
            final(self).heap@.inner[0] == reqs_sec / 2,
            final(self).heap@.inner[1] == left_value(reqs_sec as int, reqs_sec as int / 2),
            final(self).heap@.inner[2] == right_value(reqs_sec as int, reqs_sec as int / 2),
            reqs_sec % 4 < 2 ==> final(self).heap@.inner[1] == reqs_sec / 2 + reqs_sec / 4
                && final(self).heap@.inner[2] == reqs_sec / 4,
            final(self).limit == reqs_sec / 2,
    {
        self.heap.set_original(reqs_sec as i32);
        self.heap.build();
        let root: i32 = self.heap.node(0);
        self.set_limit(root as usize);
    }

    /// Record the number of errors seen.
    pub fn set_errors(&mut self, errors: usize)
        ensures
            final(self)@ == (PolicyView { errors, ..old(self)@ }),
    {
        self.errors = errors;
    }

    /// Record the rate limit.
    pub fn set_limit(&mut self, limit: usize)
        ensures
            final(self)@ == (PolicyView { limit, ..old(self)@ }),
    {
        self.limit = limit;
    }

    /// The rate limit in requests per second.
    pub fn get_limit(&self) -> (limit: usize)
        ensures
            limit == self.limit,
    {
        self.limit
    }

    /// Raise the rate after `streak_counter` adjustments in a row without new
    /// errors: the cursor moves up the tree or to the left child, and the
    /// limit follows it. From the root a short streak takes the left child.
    pub fn adjust_up(&mut self, streak_counter: &usize)
        ensures
            final(self)@ == old(self)@.raised(*streak_counter),
            old(self).heap@.current == 0 && *streak_counter <= 2 ==> final(self).limit == old(
                self,
            ).heap@.inner[1] as usize,
    {
        if *streak_counter > 2 {
            let current: i32 = self.heap.value();
            self.heap.move_up();
            self.heap.move_up();
            if current > self.heap.value() {
                if self.heap.has_parent() && self.heap.parent_value() > current {
                    self.heap.move_up();
                } else if !self.heap.has_parent() {
                    self.remove_limit = true;
                }
            }
            let value: i32 = self.heap.value();
            self.set_limit(value as usize);
        } else if self.heap.has_children() {
            self.heap.move_left();
            let value: i32 = self.heap.value();
            self.set_limit(value as usize);
        } else {
            let current: i32 = self.heap.value();
            self.heap.move_up();
            self.heap.move_up();

            if current > self.heap.value() {
                self.heap.move_up();
            }
            let value: i32 = self.heap.value();
            self.set_limit(value as usize);
        }
    }

    /// Lower the rate: step to the right child and take the limit from it.
    /// At a leaf nothing changes.
    pub fn adjust_down(&mut self)
        ensures
            final(self)@ == old(self)@.lowered(),
            !old(self).heap@.has_children() ==> final(self)@ == old(self)@,
    {
        if self.heap.has_children() {
            self.heap.move_right();
            let value: i32 = self.heap.value();
            self.set_limit(value as usize);
        }
    }
}

} // verus!
