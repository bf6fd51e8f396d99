use vstd::prelude::*;

verus! {

/// The bookkeeping of a bounded fan-out run over a source of proxies.
pub struct SchedulerView {
    pub limit: nat,
    pub in_flight: nat,
    pub started: nat,
    pub succeeded: nat,
    pub failed: nat,
    pub source_done: bool,
}

/// The decisions of a bounded fan-out run: a test may start only while fewer
/// than `limit` are in flight; the run is complete once the source is drained
/// and every started test has reported a result or a failure.
pub struct Scheduler {
    limit: usize,
    in_flight: usize,
    started: usize,
    succeeded: usize,
    failed: usize,
    source_done: bool,
}

impl View for Scheduler {
    type V = SchedulerView;

    closed spec fn view(&self) -> SchedulerView {
        SchedulerView {
            limit: self.limit as nat,
            in_flight: self.in_flight as nat,
            started: self.started as nat,
            succeeded: self.succeeded as nat,
            failed: self.failed as nat,
            source_done: self.source_done,
        }
    }
}

/// The run's invariant: at most `limit` tests in flight, and every started
/// test is in flight or has ended exactly once.
pub open spec fn scheduler_inv(s: SchedulerView) -> bool {
    &&& 1 <= s.limit
    &&& s.in_flight <= s.limit
    &&& s.started == s.in_flight + s.succeeded + s.failed
}

/// What happens to a run: a test starts, or one ends with a result (`true`)
/// or a failure (`false`).
pub enum SchedulerEvent {
    Start,
    Finish(bool),
}

/// Whether `e` may happen in state `s`.
pub open spec fn event_allowed(s: SchedulerView, e: SchedulerEvent) -> bool {
    match e {
        SchedulerEvent::Start => s.in_flight < s.limit,
        SchedulerEvent::Finish(_) => s.in_flight > 0,
    }
}

/// The state after `e`.
pub open spec fn scheduler_step(s: SchedulerView, e: SchedulerEvent) -> SchedulerView {
    match e {
        SchedulerEvent::Start => SchedulerView {
            in_flight: s.in_flight + 1,
            started: s.started + 1,
            ..s
        },
        SchedulerEvent::Finish(ok) => SchedulerView {
            in_flight: (s.in_flight - 1) as nat,
            succeeded: if ok {
                s.succeeded + 1
            } else {
                s.succeeded
            },
            failed: if ok {
                s.failed
            } else {
                s.failed + 1
            },
            ..s
        },
    }
}

/// The state after the events `es`, in order.
pub open spec fn scheduler_run(s: SchedulerView, es: Seq<SchedulerEvent>) -> SchedulerView
    decreases es.len(),
{
    if es.len() == 0 {
        s
    } else {
        scheduler_run(scheduler_step(s, es[0]), es.drop_first())
    }
}

/// Whether each of `es` is allowed when it happens.
pub open spec fn all_allowed(s: SchedulerView, es: Seq<SchedulerEvent>) -> bool
    decreases es.len(),
{
    if es.len() == 0 {
        true
    } else {
        event_allowed(s, es[0]) && all_allowed(scheduler_step(s, es[0]), es.drop_first())
    }
}

/// However the starts and ends of tests interleave, as long as a test starts
/// only when a slot is free, never more than `limit` tests are in flight, and
/// a failed test never takes away a result already counted.
pub proof fn lemma_never_over_limit(s: SchedulerView, es: Seq<SchedulerEvent>)
    requires
        scheduler_inv(s),
        all_allowed(s, es),
    ensures
        scheduler_inv(scheduler_run(s, es)),
        scheduler_run(s, es).in_flight <= s.limit,
        scheduler_run(s, es).limit == s.limit,
        scheduler_run(s, es).succeeded >= s.succeeded,
    decreases es.len(),
{
    if es.len() > 0 {
        lemma_never_over_limit(scheduler_step(s, es[0]), es.drop_first());
    }
}

impl Scheduler {
    /// A run that admits at most `limit` concurrent tests.
    pub fn new(limit: usize) -> (r: Scheduler)
        requires
            1 <= limit,
        ensures
            scheduler_inv(r@),
            r@ == (SchedulerView {
                limit: limit as nat,
                in_flight: 0,
                started: 0,
                succeeded: 0,
                failed: 0,
                source_done: false,
            }),
    {
        Scheduler { limit, in_flight: 0, started: 0, succeeded: 0, failed: 0, source_done: false }
    }

    /// Whether another test may start now.
    pub fn can_start(&self) -> (r: bool)
        ensures
            r == (self@.in_flight < self@.limit),
    {
        self.in_flight < self.limit
    }

    /// Records that a test started; only allowed while a slot is free.
    pub fn start(&mut self)
        requires
            scheduler_inv(old(self)@),
            old(self)@.in_flight < old(self)@.limit,
            old(self)@.started < usize::MAX,
        ensures
            scheduler_inv(final(self)@),
            final(self)@ == scheduler_step(old(self)@, SchedulerEvent::Start),
    {
        self.in_flight = self.in_flight + 1;
        self.started = self.started + 1;
    }

    /// Records that a test ended, with a result or with a failure. Either
    /// way its slot is freed and the other tests are unaffected.
    pub fn finish(&mut self, succeeded: bool)
        requires
            scheduler_inv(old(self)@),
            old(self)@.in_flight > 0,
        ensures
            scheduler_inv(final(self)@),
            final(self)@ == scheduler_step(old(self)@, SchedulerEvent::Finish(succeeded)),
            final(self)@.in_flight < final(self)@.limit,
    {
        self.in_flight = self.in_flight - 1;
        if succeeded {
            self.succeeded = self.succeeded + 1;
        } else {
            self.failed = self.failed + 1;
        }
    }

    /// Records that the source has no more proxies.
    pub fn source_exhausted(&mut self)
        requires
            scheduler_inv(old(self)@),
        ensures
            scheduler_inv(final(self)@),
            final(self)@ == (SchedulerView { source_done: true, ..old(self)@ }),
    {
        self.source_done = true;
    }

    /// Whether the run is over: the source is drained and no test is in flight.
    pub fn is_complete(&self) -> (r: bool)
        ensures
            r == (self@.source_done && self@.in_flight == 0),
    {
        self.source_done && self.in_flight == 0
    }

    /// Tests that ended with a result.
    pub fn succeeded(&self) -> (r: usize)
        ensures
            r == self@.succeeded,
    {
        self.succeeded
    }

    /// Tests that ended with a failure.
    pub fn failed(&self) -> (r: usize)
        ensures
            r == self@.failed,
    {
        self.failed
    }

    /// Tests in flight now.
    pub fn in_flight(&self) -> (r: usize)
        ensures
            r == self@.in_flight,
    {
        self.in_flight
    }
}

} // verus!
