use crate::record::SelectResult;
use vstd::prelude::*;

verus! {

/// What woke a readiness wait.
#[derive(Debug, Clone, Copy, PartialEq, Eq, Structural)]
pub enum WaitEvent {
    /// The queue's descriptor reported readable; `newest` is the sequence
    /// number of the newest record pending.
    Readable { newest: u64 },
    /// A signal interrupted the wait.
    Interrupted,
    /// Time passed with nothing to report.
    Elapsed { ms: u32 },
}

/// What the waiting loop does next.
#[derive(Debug, Clone, Copy, PartialEq, Eq, Structural)]
pub enum WaitAction {
    /// The wait ends with this result.
    Return(SelectResult),
    /// Keep waiting, at most this many more milliseconds.
    Wait { remaining_ms: u64 },
}

/// The state of a queue handle's readiness waits.
#[derive(Debug, Clone, Copy, PartialEq, Eq, Structural)]
pub struct ReadinessWaiter {
    /// Sequence number of the newest record already reported as `Data`.
    pub reported: u64,
    /// Timeout of the current wait, in milliseconds.
    pub timeout_ms: u32,
    /// Whether a signal ends the current wait.
    pub interrupt_on_signal: bool,
    /// Time spent in the current wait, in milliseconds.
    pub elapsed_ms: u64,
}

/// Keep waiting if time is left, else time out.
pub open spec fn wait_or_time_out(s: ReadinessWaiter) -> WaitAction {
    if s.elapsed_ms >= s.timeout_ms {
        WaitAction::Return(SelectResult::Timeout)
    } else {
        WaitAction::Wait { remaining_ms: (s.timeout_ms - s.elapsed_ms) as u64 }
    }
}

/// The next state and action of a wait on event `e`.
pub open spec fn decide(s: ReadinessWaiter, e: WaitEvent) -> (ReadinessWaiter, WaitAction) {
    match e {
        WaitEvent::Readable { newest } => if newest > s.reported {
            (ReadinessWaiter { reported: newest, ..s }, WaitAction::Return(SelectResult::Data))
        } else {
            (s, wait_or_time_out(s))
        },
        WaitEvent::Interrupted => if s.interrupt_on_signal {
            (s, WaitAction::Return(SelectResult::Signal))
        } else {
            (s, wait_or_time_out(s))
        },
        WaitEvent::Elapsed { ms } => {
            let elapsed = if s.elapsed_ms + ms > u64::MAX {
                u64::MAX
            } else {
                (s.elapsed_ms + ms) as u64
            };
            let t = ReadinessWaiter { elapsed_ms: elapsed, ..s };
            (t, wait_or_time_out(t))
        },
    }
}

impl ReadinessWaiter {
    /// A waiter that has reported nothing yet.
    pub fn new() -> (r: ReadinessWaiter)
        ensures
            r.reported == 0,
            r.elapsed_ms == 0,
    {
        ReadinessWaiter { reported: 0, timeout_ms: 0, interrupt_on_signal: false, elapsed_ms: 0 }
    }

    /// Starts a wait with the given timeout.
    pub fn begin(&mut self, timeout_ms: u32, interrupt_on_signal: bool)
        ensures
            *final(self) == (ReadinessWaiter { timeout_ms, interrupt_on_signal, elapsed_ms: 0, ..*old(self) }),
    {
        self.timeout_ms = timeout_ms;
        self.interrupt_on_signal = interrupt_on_signal;
        self.elapsed_ms = 0;
    }

    /// Decides what an event means for the current wait.
    ///
    /// `Data` comes only for a record newer than any reported before;
    /// `Timeout` only once the timeout has elapsed; `Signal` only where the
    /// wait is interruptible.
    pub fn on_event(&mut self, e: WaitEvent) -> (a: WaitAction)
        ensures
            (*final(self), a) == decide(*old(self), e),
    {
        match e {
            WaitEvent::Readable { newest } => {
                if newest > self.reported {
                    self.reported = newest;
                    WaitAction::Return(SelectResult::Data)
                } else {
                    self.wait_or_time_out()
                }
            },
            WaitEvent::Interrupted => {
                if self.interrupt_on_signal {
                    WaitAction::Return(SelectResult::Signal)
                } else {
                    self.wait_or_time_out()
                }
            },
            WaitEvent::Elapsed { ms } => {
                self.elapsed_ms = if self.elapsed_ms > u64::MAX - ms as u64 {
                    u64::MAX
                } else {
                    self.elapsed_ms + ms as u64
                };
                self.wait_or_time_out()
            },
        }
    }

    fn wait_or_time_out(&self) -> (a: WaitAction)
        ensures
            a == wait_or_time_out(*self),
    {
        if self.elapsed_ms >= self.timeout_ms as u64 {
            WaitAction::Return(SelectResult::Timeout)
        } else {
            WaitAction::Wait { remaining_ms: self.timeout_ms as u64 - self.elapsed_ms }
        }
    }
}

/// A wait never times out before its timeout has elapsed, and never reports
/// `Data` for records that were already reported.
pub proof fn lemma_wait_outcomes(s: ReadinessWaiter, e: WaitEvent)
    ensures
        decide(s, e).1 == WaitAction::Return(SelectResult::Timeout) ==> decide(s, e).0.elapsed_ms
            >= s.timeout_ms,
        decide(s, e).1 == WaitAction::Return(SelectResult::Data) ==> (e matches WaitEvent::Readable { newest }
            && newest > s.reported && decide(s, e).0.reported == newest),
        decide(s, e).1 == WaitAction::Return(SelectResult::Signal) ==> s.interrupt_on_signal,
{
}

/// Once `Data` has been reported for a set of pending records, the same set
/// does not give `Data` again.
pub proof fn lemma_data_reported_once(s: ReadinessWaiter, newest: u64)
    requires
        decide(s, WaitEvent::Readable { newest }).1 == WaitAction::Return(SelectResult::Data),
    ensures
        decide(decide(s, WaitEvent::Readable { newest }).0, WaitEvent::Readable { newest }).1
            != WaitAction::Return(SelectResult::Data),
{
}

/// A pending record not yet reported gives `Data` at once, before any
/// timeout.
pub proof fn lemma_pending_record_gives_data(s: ReadinessWaiter, newest: u64)
    requires
        newest > s.reported,
    ensures
        decide(s, WaitEvent::Readable { newest }).1 == WaitAction::Return(SelectResult::Data),
{
}

} // verus!
