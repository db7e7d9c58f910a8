//! An early-boot, double-ended bump allocator.
//!
//! One contiguous span `[start, end)` serves two kinds of requests at once:
//! small byte allocations grow a cursor forward from `start`, while
//! page-granular allocations grow a second cursor backward from `end`.
//! The two used regions may meet but never overlap; the byte region is
//! reclaimed in bulk once every outstanding byte allocation has been
//! released, and pages are never reclaimed at all.

pub mod align;
pub mod early;
