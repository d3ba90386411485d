//! The execution model's accounting: one unit of work is counted in-flight
//! from submission to completion, and draining waits until the count is
//! back to zero. The counter is the correctness backbone of graceful
//! shutdown in unbounded mode; the binary mirrors each verified transition
//! with one atomic operation.

use vstd::prelude::*;

verus! {

/// One transition of the in-flight counter: a unit of work submitted, or a
/// unit of work finished (successfully or not).
pub enum WorkEvent {
    Submit,
    Complete,
}

/// How one event moves the counter.
pub open spec fn spec_count_delta(e: WorkEvent) -> int {
    match e {
        WorkEvent::Submit => 1,
        WorkEvent::Complete => -1,
    }
}

/// The counter value after a history of events, starting from zero.
pub open spec fn spec_count_after(events: Seq<WorkEvent>) -> int
    decreases events.len(),
{
    if events.len() == 0 {
        0int
    } else {
        spec_count_after(events.drop_last()) + spec_count_delta(events.last())
    }
}

/// How many events of a history are submissions.
pub open spec fn spec_submits(events: Seq<WorkEvent>) -> int
    decreases events.len(),
{
    if events.len() == 0 {
        0int
    } else {
        spec_submits(events.drop_last()) + if events.last() is Submit {
            1int
        } else {
            0int
        }
    }
}

/// How many events of a history are completions.
pub open spec fn spec_completes(events: Seq<WorkEvent>) -> int
    decreases events.len(),
{
    if events.len() == 0 {
        0int
    } else {
        spec_completes(events.drop_last()) + if events.last() is Complete {
            1int
        } else {
            0int
        }
    }
}

/// The counter always equals submissions minus completions: every
/// increment is one submission, every decrement one completion.
pub proof fn lemma_count_is_balance(events: Seq<WorkEvent>)
    ensures
        spec_count_after(events) == spec_submits(events) - spec_completes(events),
    decreases events.len(),
{
    if events.len() > 0 {
        lemma_count_is_balance(events.drop_last());
    }
}

/// After any history in which every submitted unit of work has completed —
/// whatever the interleaving, and for any number of submissions — the
/// counter is back to exactly zero.
pub proof fn lemma_drained_when_all_complete(events: Seq<WorkEvent>)
    requires
        spec_submits(events) == spec_completes(events),
    ensures
        spec_count_after(events) == 0,
{
    lemma_count_is_balance(events);
}

/// The in-flight counter: incremented when a unit of work is submitted,
/// decremented when it finishes, zero exactly when the recorded history is
/// balanced. Never negative: a completion can only be recorded while work
/// is in flight.
pub struct InFlight {
    count: usize,
    history: Ghost<Seq<WorkEvent>>,
}

impl InFlight {
    /// The recorded history of submissions and completions.
    pub closed spec fn spec_history(&self) -> Seq<WorkEvent> {
        self.history@
    }

    /// The current count of in-flight units of work.
    pub closed spec fn spec_count(&self) -> int {
        self.count as int
    }

    /// The counter is exactly what its history adds up to.
    pub closed spec fn wf(&self) -> bool {
        self.count as int == spec_count_after(self.history@)
    }

    /// The counter is never negative, whatever was done with it: a held
    /// value always admits a submission-first view of its history.
    pub proof fn lemma_count_nonnegative(&self)
        ensures
            self.spec_count() >= 0,
    {
    }

    /// A fresh counter: nothing in flight, empty history.
    pub fn new() -> (r: Self)
        ensures
            r.wf(),
            r.spec_count() == 0,
            r.spec_count() >= 0,
            r.spec_history() == Seq::<WorkEvent>::empty(),
    {
        InFlight { count: 0, history: Ghost(Seq::empty()) }
    }

    /// Records a submission, before the work starts.
    pub fn submit(&mut self)
        requires
            old(self).wf(),
            old(self).spec_count() < usize::MAX,
        ensures
            final(self).wf(),
            final(self).spec_count() == old(self).spec_count() + 1,
            final(self).spec_count() >= 0,
            final(self).spec_history() == old(self).spec_history().push(WorkEvent::Submit),
    {
        self.count = self.count + 1;
        proof {
            self.history@ = self.history@.push(WorkEvent::Submit);
            assert(self.history@.drop_last() =~= old(self).history@);
        }
    }

    /// Records a completion, when the work finishes — also on failure.
    pub fn complete(&mut self)
        requires
            old(self).wf(),
            old(self).spec_count() > 0,
        ensures
            final(self).wf(),
            final(self).spec_count() == old(self).spec_count() - 1,
            final(self).spec_count() >= 0,
            final(self).spec_history() == old(self).spec_history().push(WorkEvent::Complete),
    {
        self.count = self.count - 1;
        proof {
            self.history@ = self.history@.push(WorkEvent::Complete);
            assert(self.history@.drop_last() =~= old(self).history@);
        }
    }

    /// Whether the counter has drained: true exactly when nothing is in
    /// flight, in particular after every submitted unit of work has
    /// completed.
    pub fn drained(&self) -> (r: bool)
        requires
            self.wf(),
        ensures
            r <==> self.spec_count() == 0,
            spec_submits(self.spec_history()) == spec_completes(self.spec_history()) ==> r,
    {
        proof {
            lemma_count_is_balance(self.history@);
        }
        self.count == 0
    }
}

} // verus!
