//! Severity levels and the order that gates events.

use std::cmp::Ordering;
use vstd::prelude::*;
use vstd::std_specs::cmp::PartialOrdSpecImpl;

verus! {

/// Severity of a log event, most urgent first.
#[derive(Clone, Copy, Debug, PartialEq, Eq, Structural, Hash)]
pub enum Level {
    /// Very serious errors.
    Error,
    /// Hazardous situations.
    Warn,
    /// Useful information.
    Info,
    /// Lower priority information.
    Debug,
    /// Very low priority, often extremely verbose, information.
    Trace,
}

impl Level {
    /// Position in the fixed total order: 1 for `Error`, rising with verbosity to 5 for `Trace`.
    pub open spec fn rank(self) -> nat {
        match self {
            Level::Error => 1,
            Level::Warn => 2,
            Level::Info => 3,
            Level::Debug => 4,
            Level::Trace => 5,
        }
    }

    /// An event at `self` is recorded under `threshold`: it is at least as severe.
    pub open spec fn passes(self, threshold: Level) -> bool {
        self.rank() <= threshold.rank()
    }

    /// The rank as a machine integer.
    pub fn ordinal(self) -> (n: u8)
        ensures
            n == self.rank(),
    {
        match self {
            Level::Error => 1,
            Level::Warn => 2,
            Level::Info => 3,
            Level::Debug => 4,
            Level::Trace => 5,
        }
    }
}

/// Levels compare by rank, so `a <= b` says that `a` is at least as severe as `b`.
impl PartialOrd for Level {
    fn partial_cmp(&self, other: &Level) -> (order: Option<Ordering>) {
        let left: u8 = self.ordinal();
        let right: u8 = other.ordinal();
        if left < right {
            Some(Ordering::Less)
        } else if left == right {
            Some(Ordering::Equal)
        } else {
            Some(Ordering::Greater)
        }
    }
}

impl PartialOrdSpecImpl for Level {
    open spec fn obeys_partial_cmp_spec() -> bool {
        true
    }

    open spec fn partial_cmp_spec(&self, other: &Level) -> Option<Ordering> {
        if self.rank() < other.rank() {
            Some(Ordering::Less)
        } else if self.rank() == other.rank() {
            Some(Ordering::Equal)
        } else {
            Some(Ordering::Greater)
        }
    }
}

/// The order is total: of two levels one passes the other as threshold, and
/// both do only where the two are the same level.
pub proof fn lemma_passes_total(a: Level, b: Level)
    ensures
        a.passes(b) || b.passes(a),
        a.passes(b) && b.passes(a) <==> a == b,
{
}

/// Threshold monotonicity: when an event at `b` is recorded under `threshold`,
/// so is every event at a level `a` at least as severe as `b`.
pub proof fn lemma_passes_monotone(threshold: Level, a: Level, b: Level)
    requires
        a.passes(b),
        b.passes(threshold),
    ensures
        a.passes(threshold),
{
}

} // verus!
