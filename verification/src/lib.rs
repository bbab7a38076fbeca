//! Adaptive request-rate control for a concurrent scanner.
//!
//! The crate watches how a scan misbehaves (general errors, 403s, 429s) and
//! either walks a pre-computed tree of candidate rates towards a sustainable
//! requests-per-second ceiling, or decides that the scan should be cancelled.

pub mod bucket;
pub mod limit_heap;
pub mod policy;
pub mod requester;
pub mod scan;
