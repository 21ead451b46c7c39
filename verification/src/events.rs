//! Runtime event fan-out.
//!
//! Once per tick the embedding drains every pending runtime event and
//! hands each one to every registered handler, in registration order. The
//! poll cycle takes exclusive ownership of the handler list for its whole
//! duration, so no handler can be added or removed mid-poll, and returns
//! the list unchanged when it finishes. A handler that fails is tallied
//! and skipped: the same event still reaches every later handler and
//! every further event is still processed.

use vstd::prelude::*;

verus! {

/// Identifier of a handler registered with the host scheduler; the
/// scheduler runs the handler's body, the cycle only decides who is
/// invoked next.
#[derive(Clone, Copy, Debug, PartialEq, Eq, Structural)]
pub struct OxrEventHandler(pub u64);

/// The registered handlers, in registration order.
pub struct OxrEventHandlers {
    pub handlers: Vec<OxrEventHandler>,
}

impl OxrEventHandlers {
    /// An empty registration list.
    pub fn new() -> (r: Self)
        ensures
            r.handlers@ == Seq::<OxrEventHandler>::empty(),
    {
        OxrEventHandlers { handlers: Vec::new() }
    }

    /// Registers a handler at the end of the list; registration happens
    /// before polling begins.
    pub fn add_oxr_event_handler(&mut self, handler: OxrEventHandler)
        ensures
            final(self).handlers@ == old(self).handlers@.push(handler),
    {
        self.handlers.push(handler);
    }

    /// How many handlers are registered.
    pub fn len(&self) -> (n: usize)
        ensures
            n == self.handlers@.len(),
    {
        self.handlers.len()
    }
}

/// A drained event as a handler may see it: the payload is reachable only
/// while the delivering scope holds it valid, and is withdrawn when that
/// scope ends, so a handle kept past its delivery observes nothing.
pub struct OxrEvent {
    payload: Option<u64>,
}

impl OxrEvent {
    /// What a late or in-scope read of the event observes.
    pub closed spec fn contents(&self) -> Option<u64> {
        self.payload
    }

    /// Wraps a drained event payload for delivery.
    pub fn new(payload: u64) -> (e: Self)
        ensures
            e.contents() == Some(payload),
    {
        OxrEvent { payload: Some(payload) }
    }

    /// Reads the payload; nothing is observed once the event has been
    /// withdrawn.
    pub fn get(&self) -> (r: Option<u64>)
        ensures
            r == self.contents(),
    {
        self.payload
    }

    /// Withdraws the payload when the delivering scope ends.
    pub fn invalidate(&mut self)
        ensures
            final(self).contents() == None::<u64>,
    {
        self.payload = None;
    }
}

/// One poll cycle: owns the handler list exclusively, walks it once per
/// drained event, and tallies invocations and failures.
pub struct PollCycle {
    registered: OxrEventHandlers,
    next_handler: usize,
    events_started: u64,
    invocations: u64,
    failures: u64,
}

impl PollCycle {
    /// The registration list the cycle took ownership of.
    pub closed spec fn handlers(&self) -> Seq<OxrEventHandler> {
        self.registered.handlers@
    }

    /// Position of the next handler to invoke for the current event.
    pub closed spec fn next_handler(&self) -> int {
        self.next_handler as int
    }

    /// How many events have been drained so far.
    pub closed spec fn events_started(&self) -> u64 {
        self.events_started
    }

    /// How many handler invocations have been made so far.
    pub closed spec fn invocations(&self) -> u64 {
        self.invocations
    }

    /// How many invocations failed (were logged and skipped).
    pub closed spec fn failures(&self) -> u64 {
        self.failures
    }

    /// The current event has been delivered to every handler (or no event
    /// has been drained yet).
    pub open spec fn event_complete(&self) -> bool {
        self.next_handler() == self.handlers().len()
    }

    /// Bookkeeping a cycle never violates: the pending position stays
    /// inside the list, nothing is invoked before the first event, and
    /// failures never outnumber invocations.
    pub open spec fn wf(&self) -> bool {
        &&& self.next_handler() <= self.handlers().len()
        &&& self.events_started() == 0 ==> self.invocations() == 0 && self.event_complete()
        &&& self.failures() <= self.invocations()
    }

    /// Takes exclusive ownership of the handler list for one poll cycle.
    pub fn new(handlers: OxrEventHandlers) -> (c: Self)
        ensures
            c.handlers() == handlers.handlers@,
            c.events_started() == 0,
            c.invocations() == 0,
            c.failures() == 0,
            c.event_complete(),
            c.wf(),
    {
        let n = handlers.handlers.len();
        PollCycle {
            registered: handlers,
            next_handler: n,
            events_started: 0,
            invocations: 0,
            failures: 0,
        }
    }

    /// Begins delivery of one freshly drained event to the whole list.
    pub fn start_event(&mut self)
        requires
            old(self).wf(),
            old(self).event_complete(),
            old(self).events_started() < u64::MAX,
        ensures
            final(self).wf(),
            final(self).handlers() == old(self).handlers(),
            final(self).events_started() == old(self).events_started() + 1,
            final(self).invocations() == old(self).invocations(),
            final(self).failures() == old(self).failures(),
            final(self).next_handler() == 0,
    {
        self.events_started = self.events_started + 1;
        self.next_handler = 0;
    }

    /// The handler the current event is to be delivered to next, if the
    /// list is not yet exhausted for this event.
    pub fn pending_handler(&self) -> (r: Option<OxrEventHandler>)
        requires
            self.wf(),
        ensures
            self.next_handler() < self.handlers().len() ==> r == Some(
                self.handlers()[self.next_handler()],
            ),
            self.event_complete() ==> r == None::<OxrEventHandler>,
    {
        if self.next_handler < self.registered.handlers.len() {
            Some(self.registered.handlers[self.next_handler])
        } else {
            None
        }
    }

    /// The cycle after one invocation was reported back, successful or
    /// failed.
    pub closed spec fn step_spec(self, failed: bool) -> PollCycle {
        PollCycle {
            registered: self.registered,
            next_handler: (self.next_handler + 1) as usize,
            events_started: self.events_started,
            invocations: (self.invocations + 1) as u64,
            failures: if failed {
                (self.failures + 1) as u64
            } else {
                self.failures
            },
        }
    }

    /// Records the outcome of the pending invocation and moves on to the
    /// next handler. A failure only raises the failure tally: delivery
    /// proceeds exactly as on success.
    pub fn handler_done(&mut self, failed: bool)
        requires
            old(self).wf(),
            old(self).next_handler() < old(self).handlers().len(),
            old(self).invocations() < u64::MAX,
        ensures
            final(self).wf(),
            *final(self) == old(self).step_spec(failed),
            final(self).handlers() == old(self).handlers(),
            final(self).events_started() == old(self).events_started(),
            final(self).next_handler() == old(self).next_handler() + 1,
            final(self).invocations() == old(self).invocations() + 1,
            failed ==> final(self).failures() == old(self).failures() + 1,
            !failed ==> final(self).failures() == old(self).failures(),
    {
        let n = self.registered.handlers.len();
        assert(self.next_handler < n);
        self.next_handler = self.next_handler + 1;
        self.invocations = self.invocations + 1;
        if failed {
            self.failures = self.failures + 1;
        }
    }

    /// Hands the registration list back, unchanged, when the cycle ends.
    pub fn finish(self) -> (h: OxrEventHandlers)
        ensures
            h.handlers@ == self.handlers(),
    {
        self.registered
    }

    /// Runtime view of the invocation tally.
    pub fn invocation_count(&self) -> (n: u64)
        ensures
            n == self.invocations(),
    {
        self.invocations
    }

    /// Runtime view of the failure tally.
    pub fn failure_count(&self) -> (n: u64)
        ensures
            n == self.failures(),
    {
        self.failures
    }

    /// Runtime view of how many events were drained.
    pub fn event_count(&self) -> (n: u64)
        ensures
            n == self.events_started(),
    {
        self.events_started
    }
}

/// Law: a cycle that drained zero pending events has invoked zero
/// handlers; with the cycle's contracts, which keep and return the
/// registration list unchanged, polling zero events leaves registration
/// exactly as it was.
pub proof fn lemma_poll_zero_events(c: PollCycle)
    requires
        c.wf(),
        c.events_started() == 0,
    ensures
        c.invocations() == 0,
        c.event_complete(),
{
}

/// Law: a failing handler is recorded and skipped. Reporting a failure
/// leaves the cycle in the same delivery position, with the same handler
/// list and event progress, as reporting success: the same event still
/// reaches every later handler and later events are unaffected; only the
/// failure tally differs.
pub proof fn lemma_failed_handler_skipped(c: PollCycle)
    requires
        c.failures() < u64::MAX,
        c.invocations() < u64::MAX,
        c.next_handler() < c.handlers().len(),
    ensures
        c.step_spec(true).handlers() == c.step_spec(false).handlers(),
        c.step_spec(true).next_handler() == c.step_spec(false).next_handler(),
        c.step_spec(true).events_started() == c.step_spec(false).events_started(),
        c.step_spec(true).invocations() == c.step_spec(false).invocations(),
        c.step_spec(true).failures() == c.step_spec(false).failures() + 1,
{
}

} // verus!
