//! What the rate control reads of a scan: its status, its counters and how
//! far it has come.

use crate::policy::PolicyTrigger;
use vstd::prelude::*;

verus! {

/// Where a scan stands.
#[derive(Clone, Copy, Debug, PartialEq, Eq, Structural)]
pub enum ScanStatus {
    /// Created, not yet running.
    NotStarted,
    /// Sending requests.
    Running,
    /// Ran to its end.
    Complete,
    /// Stopped before its end.
    Cancelled,
}

/// Status, counters and progress of one scan.
#[derive(Clone, Copy, Debug, PartialEq, Eq, Structural)]
pub struct ScanState {
    /// Where the scan stands.
    pub status: ScanStatus,
    /// Requests that failed outright.
    pub errors: usize,
    /// Responses with status 403.
    pub status_403s: usize,
    /// Responses with status 429.
    pub status_429s: usize,
    /// Requests made so far.
    pub requests: usize,
    /// Requests the scan expects to make in all.
    pub progress_length: u64,
    /// Requests the progress display has counted.
    pub progress_position: u64,
}

impl Default for ScanState {
    fn default() -> (scan: ScanState)
        ensures
            scan == (ScanState {
                status: ScanStatus::NotStarted,
                errors: 0,
                status_403s: 0,
                status_429s: 0,
                requests: 0,
                progress_length: 0,
                progress_position: 0,
            }),
    {
        ScanState {
            status: ScanStatus::NotStarted,
            errors: 0,
            status_403s: 0,
            status_429s: 0,
            requests: 0,
            progress_length: 0,
            progress_position: 0,
        }
    }
}

impl ScanState {
    /// The counter that `trigger` watches.
    pub open spec fn count(self, trigger: PolicyTrigger) -> usize {
        match trigger {
            PolicyTrigger::Status403 => self.status_403s,
            PolicyTrigger::Status429 => self.status_429s,
            PolicyTrigger::Errors => self.errors,
        }
    }

    /// The scan is sending requests.
    pub open spec fn active(self) -> bool {
        self.status == ScanStatus::Running
    }

    /// Requests that the scan, stopped where it is, will not make: what the
    /// progress display has left to count, and nothing where it is past the
    /// end.
    pub open spec fn remaining(self) -> u64 {
        if self.progress_length >= self.progress_position {
            (self.progress_length - self.progress_position) as u64
        } else {
            0
        }
    }

    /// Number of errors of the kind that `trigger` watches.
    pub fn num_errors(&self, trigger: PolicyTrigger) -> (count: usize)
        ensures
            count == self.count(trigger),
    {
        match trigger {
            PolicyTrigger::Status403 => self.status_403s,
            PolicyTrigger::Status429 => self.status_429s,
            PolicyTrigger::Errors => self.errors,
        }
    }

    /// Number of requests made so far.
    pub fn requests(&self) -> (count: usize)
        ensures
            count == self.requests,
    {
        self.requests
    }

    /// Whether the scan is sending requests.
    pub fn is_active(&self) -> (active: bool)
        ensures
            active == self.active(),
    {
        match self.status {
            ScanStatus::Running => true,
            _ => false,
        }
    }

    /// Number of requests that the scan, stopped where it is, will not make.
    pub fn num_skipped(&self) -> (skipped: usize)
        ensures
            skipped == self.remaining() as usize,
    {
        self.progress_length.saturating_sub(self.progress_position) as usize
    }

    /// Record where the scan stands.
    pub fn set_status(&mut self, status: ScanStatus)
        ensures
            *final(self) == (ScanState { status, ..*old(self) }),
    {
        self.status = status;
    }
}

} // verus!
