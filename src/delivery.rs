//! The decisions of the worker that delivers commands to the transmitter:
//! what to write, when to pause, and how to recover from a failing transport.

use vstd::prelude::*;
use backon::BackoffBuilder;
use crate::codec::{Delivery, UserCommand, expand, expansion, wire_text_spec};

verus! {

/// The delay after the `k`-th consecutive failure, counted from zero, in
/// milliseconds: one second, doubled after each failure, at most a minute.
pub open spec fn backoff_delay_ms(k: nat) -> u64
    decreases k,
{
    if k == 0 {
        1000
    } else {
        let p = backoff_delay_ms((k - 1) as nat);
        if 2 * p < 60000 {
            (2 * p) as u64
        } else {
            60000
        }
    }
}

/// Relies on backon's `ExponentialBuilder` with its defaults (no jitter,
/// factor two, first delay one second, delays capped at sixty seconds) and
/// `with_max_times`: the backoff it builds yields `max_times` delays, the
/// `k`-th of them `min(2^k, 60)` seconds, and then none.
#[verifier::external_body]
fn backoff_delay(max_times: usize, attempt: usize) -> (r: Option<u64>)
    ensures
        attempt < max_times ==> r == Some(backoff_delay_ms(attempt as nat)),
        attempt >= max_times ==> r is None,
{
    backon::ExponentialBuilder::default().with_max_times(max_times).build().nth(attempt).map(
        |d| d.as_millis() as u64,
    )
}

/// Where the worker stands.
#[derive(Clone, Copy, Debug, PartialEq, Eq, Structural)]
pub enum Phase {
    /// Waiting for the next command from the queue.
    Receiving,
    /// Writing the text of the first pending frame.
    Writing,
    /// Waiting out a backoff delay before reopening the transport.
    BackingOff,
    /// Opening the transport.
    Reopening,
    /// Waiting out the pause that follows a frame.
    Pausing,
    /// Stopped cleanly: no producer is left.
    Finished,
    /// Stopped for good: the transport could not be recovered.
    Failed,
}

/// What the outside world reports to the worker.
#[derive(Clone, Copy, Debug, PartialEq, Eq, Structural)]
pub enum Event {
    /// A command came out of the queue.
    Received(UserCommand),
    /// The queue is closed and empty: no producer is left.
    QueueClosed,
    /// The last write went through.
    Written,
    /// The last write failed.
    WriteFailed,
    /// The transport was opened.
    Reopened,
    /// Opening the transport failed.
    ReopenFailed,
    /// The requested sleep is over.
    Slept,
}

/// What the worker asks the outside world to do next.
#[derive(Debug)]
pub enum Action {
    /// Take the next command from the queue.
    Receive,
    /// Write these bytes to the transport, in one write.
    Write(Vec<u8>),
    /// Sleep for this many milliseconds.
    Sleep(u64),
    /// Close the transport, if it is open, and open it again.
    Reopen,
    /// Stop cleanly.
    Finish,
    /// Stop and shut the whole process down.
    Shutdown,
    /// Nothing: the event was not one the worker waited for.
    Ignore,
}

/// The abstract value of an [`Action`].
pub enum ActionView {
    Receive,
    Write(Seq<u8>),
    Sleep(u64),
    Reopen,
    Finish,
    Shutdown,
    Ignore,
}

impl View for Action {
    type V = ActionView;

    open spec fn view(&self) -> ActionView {
        match self {
            Action::Receive => ActionView::Receive,
            Action::Write(b) => ActionView::Write(b@),
            Action::Sleep(ms) => ActionView::Sleep(*ms),
            Action::Reopen => ActionView::Reopen,
            Action::Finish => ActionView::Finish,
            Action::Shutdown => ActionView::Shutdown,
            Action::Ignore => ActionView::Ignore,
        }
    }
}

/// The abstract state of a [`DeliveryWorker`].
pub struct WorkerView {
    /// The frames of the current command that are not written yet.
    pub pending: Seq<Delivery>,
    /// Failures of the transport since the last successful write.
    pub failures: nat,
    /// How many failures in a row are retried.
    pub budget: nat,
    pub phase: Phase,
}

/// The worker that owns the transport: it takes one command at a time from
/// the queue, writes each of its frames, and reopens the transport with a
/// growing delay when it fails.
pub struct DeliveryWorker {
    pending: Vec<Delivery>,
    failures: usize,
    budget: usize,
    phase: Phase,
}

impl View for DeliveryWorker {
    type V = WorkerView;

    closed spec fn view(&self) -> WorkerView {
        WorkerView {
            pending: self.pending@,
            failures: self.failures as nat,
            budget: self.budget as nat,
            phase: self.phase,
        }
    }
}

/// Moves on to the next pending frame, or to the next command.
pub open spec fn advance(w: WorkerView, pending: Seq<Delivery>) -> (WorkerView, ActionView) {
    if pending.len() == 0 {
        (WorkerView { pending, phase: Phase::Receiving, ..w }, ActionView::Receive)
    } else {
        (
            WorkerView { pending, phase: Phase::Writing, ..w },
            ActionView::Write(wire_text_spec(pending[0].command)),
        )
    }
}

/// Handles a failure of the transport: back off and reopen while the budget
/// lasts, else stop for good.
pub open spec fn fail(w: WorkerView) -> (WorkerView, ActionView) {
    if w.failures < w.budget {
        (
            WorkerView { failures: w.failures + 1, phase: Phase::BackingOff, ..w },
            ActionView::Sleep(backoff_delay_ms(w.failures)),
        )
    } else {
        (WorkerView { phase: Phase::Failed, ..w }, ActionView::Shutdown)
    }
}

/// The worker's next state and action after event `e` in state `w`.
pub open spec fn step_spec(w: WorkerView, e: Event) -> (WorkerView, ActionView) {
    match (w.phase, e) {
        (Phase::Receiving, Event::Received(u)) => advance(w, expansion(u)),
        (Phase::Receiving, Event::QueueClosed) => (
            WorkerView { phase: Phase::Finished, ..w },
            ActionView::Finish,
        ),
        (Phase::Writing, Event::Written) => {
            let w0 = WorkerView { failures: 0, ..w };
            match w.pending[0].pause_ms {
                Some(ms) => (
                    WorkerView { pending: w.pending.drop_first(), phase: Phase::Pausing, ..w0 },
                    ActionView::Sleep(ms),
                ),
                None => advance(w0, w.pending.drop_first()),
            }
        },
        (Phase::Writing, Event::WriteFailed) => fail(w),
        (Phase::BackingOff, Event::Slept) => (
            WorkerView { phase: Phase::Reopening, ..w },
            ActionView::Reopen,
        ),
        (Phase::Reopening, Event::Reopened) => advance(w, w.pending),
        (Phase::Reopening, Event::ReopenFailed) => fail(w),
        (Phase::Pausing, Event::Slept) => advance(w, w.pending),
        _ => (w, ActionView::Ignore),
    }
}

/// The backoff delays never shrink, and they grow strictly until they reach
/// their cap with the seventh failure.
pub proof fn lemma_backoff_grows(j: nat, k: nat)
    requires
        j < k,
    ensures
        backoff_delay_ms(j) <= backoff_delay_ms(k),
        k <= 6 ==> backoff_delay_ms(j) < backoff_delay_ms(k),
    decreases k,
{
    reveal_with_fuel(backoff_delay_ms, 7);
    if j + 1 < k {
        lemma_backoff_grows(j, (k - 1) as nat);
    }
    assert(backoff_delay_ms(5) == 32000);
}

/// A worker that has failed for good stays failed and does nothing more,
/// whatever it is told.
pub proof fn lemma_failed_is_final(w: WorkerView, e: Event)
    requires
        w.phase == Phase::Failed,
    ensures
        step_spec(w, e) == (w, ActionView::Ignore),
{
}

/// A worker asks for a shutdown only when it fails for good, so at most once.
pub proof fn lemma_shutdown_once(w: WorkerView, e: Event)
    requires
        step_spec(w, e).1 is Shutdown,
    ensures
        w.phase != Phase::Failed,
        step_spec(w, e).0.phase == Phase::Failed,
        w.failures >= w.budget,
{
}

/// After a failed write within the budget the worker waits the backoff
/// delay, reopens the transport and writes the same frame again; nothing is
/// dropped or written twice.
pub proof fn lemma_failed_write_is_retried(w: WorkerView)
    requires
        w.wf(),
        w.phase == Phase::Writing,
        w.failures < w.budget,
    ensures
        ({
            let (w1, a1) = step_spec(w, Event::WriteFailed);
            let (w2, a2) = step_spec(w1, Event::Slept);
            let (w3, a3) = step_spec(w2, Event::Reopened);
            &&& a1 == ActionView::Sleep(backoff_delay_ms(w.failures))
            &&& a2 == ActionView::Reopen
            &&& a3 == ActionView::Write(wire_text_spec(w.pending[0].command))
            &&& w3 == WorkerView { failures: w.failures + 1, ..w }
        }),
{
}

/// The power-on sequence writes the power toggle, waits, writes it again
/// and waits again before it takes the next command.
pub proof fn lemma_power_on_sequence(w: WorkerView)
    requires
        w.wf(),
        w.phase == Phase::Receiving,
    ensures
        ({
            let toggle = wire_text_spec(crate::codec::InfraredCommand::TogglePower);
            let (w1, a1) = step_spec(w, Event::Received(UserCommand::PowerOnHack));
            let (w2, a2) = step_spec(w1, Event::Written);
            let (w3, a3) = step_spec(w2, Event::Slept);
            let (w4, a4) = step_spec(w3, Event::Written);
            let (w5, a5) = step_spec(w4, Event::Slept);
            &&& a1 == ActionView::Write(toggle)
            &&& a2 == ActionView::Sleep(crate::codec::POWER_ON_PAUSE_MS)
            &&& a3 == ActionView::Write(toggle)
            &&& a4 == ActionView::Sleep(crate::codec::POWER_ON_PAUSE_MS)
            &&& a5 == ActionView::Receive
            &&& w5.phase == Phase::Receiving
        }),
{
    let p = expansion(UserCommand::PowerOnHack);
    assert(p.drop_first().drop_first() =~= Seq::<Delivery>::empty());
}

impl WorkerView {
    /// The worker's own invariant.
    pub open spec fn wf(self) -> bool {
        &&& self.failures <= self.budget
        &&& self.phase == Phase::Writing ==> self.pending.len() > 0
    }
}

impl DeliveryWorker {
    /// The worker's own invariant.
    pub open spec fn wf(&self) -> bool {
        self@.wf()
    }

    /// A worker that retries up to `retry_budget` failures in a row. It
    /// begins by opening the transport: the action it returns is `Reopen`.
    pub fn new(retry_budget: usize) -> (r: (DeliveryWorker, Action))
        ensures
            r.0.wf(),
            r.0@ == (WorkerView {
                pending: Seq::empty(),
                failures: 0,
                budget: retry_budget as nat,
                phase: Phase::Reopening,
            }),
            r.1@ == ActionView::Reopen,
    {
        let w = DeliveryWorker {
            pending: Vec::new(),
            failures: 0,
            budget: retry_budget,
            phase: Phase::Reopening,
        };
        assert(w@.pending =~= Seq::empty());
        (w, Action::Reopen)
    }

    /// Where the worker stands.
    pub fn phase(&self) -> (r: Phase)
        ensures
            r == self@.phase,
    {
        self.phase
    }

    fn advance(&mut self) -> (r: Action)
        requires
            old(self)@.failures <= old(self)@.budget,
        ensures
            final(self).wf(),
            (final(self)@, r@) == advance(old(self)@, old(self)@.pending),
    {
        if self.pending.len() == 0 {
            self.phase = Phase::Receiving;
            Action::Receive
        } else {
            self.phase = Phase::Writing;
            Action::Write(self.pending[0].command.wire_text())
        }
    }

    fn fail(&mut self) -> (r: Action)
        requires
            old(self).wf(),
        ensures
            final(self).wf(),
            (final(self)@, r@) == fail(old(self)@),
    {
        match backoff_delay(self.budget, self.failures) {
            Some(ms) => {
                self.failures = self.failures + 1;
                self.phase = Phase::BackingOff;
                Action::Sleep(ms)
            },
            None => {
                self.phase = Phase::Failed;
                Action::Shutdown
            },
        }
    }

    /// Takes in event `e` and returns what to do next.
    pub fn step(&mut self, e: Event) -> (r: Action)
        requires
            old(self).wf(),
        ensures
            final(self).wf(),
            (final(self)@, r@) == step_spec(old(self)@, e),
    {
        match (self.phase, e) {
            (Phase::Receiving, Event::Received(u)) => {
                self.pending = expand(u);
                self.advance()
            },
            (Phase::Receiving, Event::QueueClosed) => {
                self.phase = Phase::Finished;
                Action::Finish
            },
            (Phase::Writing, Event::Written) => {
                self.failures = 0;
                let d = self.pending.remove(0);
                match d.pause_ms {
                    Some(ms) => {
                        self.phase = Phase::Pausing;
                        Action::Sleep(ms)
                    },
                    None => self.advance(),
                }
            },
            (Phase::Writing, Event::WriteFailed) => self.fail(),
            (Phase::BackingOff, Event::Slept) => {
                self.phase = Phase::Reopening;
                Action::Reopen
            },
            (Phase::Reopening, Event::Reopened) => self.advance(),
            (Phase::Reopening, Event::ReopenFailed) => self.fail(),
            (Phase::Pausing, Event::Slept) => self.advance(),
            _ => Action::Ignore,
        }
    }
}

} // verus!
