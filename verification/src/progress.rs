//! Progress aggregation: from the size and byte-count events of one transfer
//! to the fraction that the interface shows.

use vstd::prelude::*;

verus! {

/// One notification from a running transfer.
#[derive(Clone, Copy, Debug, PartialEq, Eq, Structural)]
pub enum ProgressEvent {
    /// A sub-item announced how many bytes it holds.
    DeclaredSize { item: u64, bytes: u64 },
    /// That many more bytes of a sub-item were handled.
    Processed { item: u64, bytes: u64 },
    /// The transfer has nothing more to report.
    Completed,
}

/// What the interface shows of a running transfer.
#[derive(Clone, Copy, Debug, PartialEq, Eq, Structural)]
pub enum Progress {
    /// No size has been declared yet, so there is nothing to divide by.
    Indeterminate,
    /// `processed` out of `declared` bytes.
    Ratio { processed: u64, declared: u64 },
}

impl Progress {
    /// A ratio has a positive denominator and lies in the unit interval.
    pub open spec fn wf(self) -> bool {
        self matches Progress::Ratio { processed, declared } ==> 0 < declared && processed
            <= declared
    }

    /// The order of the fractions, by cross-multiplication. An indeterminate
    /// reading is below every reading.
    pub open spec fn le(self, later: Progress) -> bool {
        match (self, later) {
            (Progress::Indeterminate, _) => true,
            (Progress::Ratio { .. }, Progress::Indeterminate) => false,
            (
                Progress::Ratio { processed: p1, declared: d1 },
                Progress::Ratio { processed: p2, declared: d2 },
            ) => p1 * d2 <= p2 * d1,
        }
    }

    /// The reading for the given running totals: indeterminate while nothing
    /// is declared, else processed over declared, capped at one.
    pub open spec fn of_totals(declared: u64, processed: u64) -> Progress {
        if declared == 0 {
            Progress::Indeterminate
        } else if processed <= declared {
            Progress::Ratio { processed, declared }
        } else {
            Progress::Ratio { processed: declared, declared }
        }
    }

    /// A ratio of zero: the reading of a transfer that has just begun.
    pub open spec fn zero() -> Progress {
        Progress::Ratio { processed: 0, declared: 1 }
    }

    /// Whether there is no fraction to show.
    pub fn is_indeterminate(&self) -> (r: bool)
        ensures
            r == (*self == Progress::Indeterminate),
    {
        match self {
            Progress::Indeterminate => true,
            Progress::Ratio { .. } => false,
        }
    }

    /// The reading of a transfer that has just begun.
    pub fn started() -> (r: Progress)
        ensures
            r == Progress::zero(),
            r.wf(),
    {
        Progress::Ratio { processed: 0, declared: 1 }
    }
}

/// The sum of two byte counts, held at the largest count that fits.
pub open spec fn capped_sum(total: u64, bytes: u64) -> u64 {
    if total + bytes > u64::MAX {
        u64::MAX
    } else {
        (total + bytes) as u64
    }
}

/// The running totals of one transfer.
#[derive(Clone, Copy, Debug, PartialEq, Eq, Structural)]
pub struct Aggregator {
    /// Sum of the declared sizes seen so far.
    pub declared: u64,
    /// Sum of the processed byte counts seen so far.
    pub processed: u64,
}

impl Aggregator {
    /// The totals after one more event.
    pub open spec fn step(self, event: ProgressEvent) -> Aggregator {
        match event {
            ProgressEvent::DeclaredSize { bytes, .. } => Aggregator {
                declared: capped_sum(self.declared, bytes),
                processed: self.processed,
            },
            ProgressEvent::Processed { bytes, .. } => Aggregator {
                declared: self.declared,
                processed: capped_sum(self.processed, bytes),
            },
            ProgressEvent::Completed => self,
        }
    }

    /// The totals after a sequence of events, applied in order.
    pub open spec fn after(self, events: Seq<ProgressEvent>) -> Aggregator
        decreases events.len(),
    {
        if events.len() == 0 {
            self
        } else {
            self.after(events.drop_last()).step(events.last())
        }
    }

    /// The reading for the current totals.
    pub open spec fn reading(self) -> Progress {
        Progress::of_totals(self.declared, self.processed)
    }

    /// Totals of a transfer that has reported nothing.
    pub fn new() -> (r: Aggregator)
        ensures
            r.declared == 0,
            r.processed == 0,
    {
        Aggregator { declared: 0, processed: 0 }
    }

    /// The reading for the current totals. Never divides: without a declared
    /// size the reading is indeterminate.
    pub fn progress(&self) -> (r: Progress)
        ensures
            r == self.reading(),
            r.wf(),
            r == Progress::Indeterminate <==> self.declared == 0,
    {
        if self.declared == 0 {
            Progress::Indeterminate
        } else if self.processed <= self.declared {
            Progress::Ratio { processed: self.processed, declared: self.declared }
        } else {
            Progress::Ratio { processed: self.declared, declared: self.declared }
        }
    }

    /// Takes one event into the totals and returns the new reading.
    pub fn apply(&mut self, event: ProgressEvent) -> (r: Progress)
        ensures
            *final(self) == old(self).step(event),
            r == final(self).reading(),
            r.wf(),
    {
        match event {
            ProgressEvent::DeclaredSize { bytes, .. } => {
                self.declared = add_capped(self.declared, bytes);
            },
            ProgressEvent::Processed { bytes, .. } => {
                self.processed = add_capped(self.processed, bytes);
            },
            ProgressEvent::Completed => {},
        }
        self.progress()
    }
}

/// Adds two byte counts without overflow.
pub fn add_capped(total: u64, bytes: u64) -> (r: u64)
    ensures
        r == capped_sum(total, bytes),
{
    if bytes > u64::MAX - total {
        u64::MAX
    } else {
        total + bytes
    }
}

/// Whether every event of a sequence reports processed bytes.
pub open spec fn all_processed(events: Seq<ProgressEvent>) -> bool {
    forall|k: int| 0 <= k < events.len() ==> (#[trigger] events[k]) is Processed
}

/// Every reading is indeterminate or a fraction between zero and one, and it
/// is indeterminate exactly while the declared total is zero.
pub proof fn lemma_reading_bounded(totals: Aggregator)
    ensures
        totals.reading().wf(),
        totals.reading() == Progress::Indeterminate <==> totals.declared == 0,
{
}

/// Events that only report processed bytes leave the declared total as it
/// was and never lower the processed total.
pub proof fn lemma_processed_only(totals: Aggregator, events: Seq<ProgressEvent>)
    requires
        all_processed(events),
    ensures
        totals.after(events).declared == totals.declared,
        totals.after(events).processed >= totals.processed,
    decreases events.len(),
{
    if events.len() > 0 {
        lemma_processed_only(totals, events.drop_last());
    }
}

/// Taking more of a sequence of events is the same as going on from where
/// the shorter part ended.
pub proof fn lemma_after_split(totals: Aggregator, events: Seq<ProgressEvent>, i: int)
    requires
        0 <= i <= events.len(),
    ensures
        totals.after(events) == totals.after(events.take(i)).after(events.skip(i)),
    decreases events.len() - i,
{
    if i == events.len() {
        assert(events.take(i) == events);
        assert(events.skip(i).len() == 0);
    } else {
        let rest = events.skip(i);
        assert(rest.drop_last() == events.drop_last().skip(i));
        assert(events.drop_last().take(i) == events.take(i));
        assert(rest.last() == events.last());
        lemma_after_split(totals, events.drop_last(), i);
    }
}

/// With a fixed positive declared total and a stream of processed-byte
/// events, the readings never go down and stay between zero and one: the
/// reading after the first `i` events is at most the reading after the first
/// `j`, for `i <= j`.
pub proof fn lemma_readings_non_decreasing(
    totals: Aggregator,
    events: Seq<ProgressEvent>,
    i: int,
    j: int,
)
    requires
        totals.declared > 0,
        all_processed(events),
        0 <= i <= j <= events.len(),
    ensures
        totals.after(events.take(i)).reading() is Ratio,
        totals.after(events.take(j)).reading() is Ratio,
        totals.after(events.take(i)).reading().wf(),
        totals.after(events.take(j)).reading().wf(),
        totals.after(events.take(i)).reading().le(totals.after(events.take(j)).reading()),
{
    let upto_j = events.take(j);
    let first = totals.after(events.take(i));
    let second = totals.after(upto_j);
    assert(upto_j.take(i) == events.take(i));
    lemma_after_split(totals, upto_j, i);
    assert(all_processed(events.take(i)));
    assert(all_processed(upto_j.skip(i)));
    lemma_processed_only(totals, events.take(i));
    lemma_processed_only(first, upto_j.skip(i));
    let d = totals.declared;
    let p1 = first.reading()->processed;
    let p2 = second.reading()->processed;
    assert(p1 <= p2);
    assert(p1 * d <= p2 * d) by (nonlinear_arith)
        requires
            p1 <= p2,
            d > 0,
    ;
}

/// While nothing is declared, whatever is processed, the reading stays
/// indeterminate.
pub proof fn lemma_indeterminate_until_declared(totals: Aggregator, events: Seq<ProgressEvent>)
    requires
        totals.declared == 0,
        all_processed(events),
    ensures
        totals.after(events).reading() == Progress::Indeterminate,
{
    lemma_processed_only(totals, events);
}

} // verus!
