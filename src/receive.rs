use vstd::prelude::*;
use crate::session::{Command, deadline_reached, is_past_deadline};

verus! {

/// What one attempt to read the socket gave.
#[derive(PartialEq, Eq, Structural, Clone, Copy, Debug)]
pub enum ReadOutcome {
    /// A datagram of this many bytes arrived.
    Data(usize),
    /// The read timed out or failed; nothing arrived.
    Nothing,
}

/// What happened at the receive worker, as the thread that runs it reports it.
#[derive(PartialEq, Eq, Structural, Clone, Copy, Debug)]
pub enum ReceiveEvent {
    /// The socket was bound (`true`) or could not be (`false`).
    Bound(bool),
    /// The command channel was polled, with what it held.
    Polled(Option<Command>),
    /// The socket was read.
    Read(ReadOutcome),
    /// The clock was read: milliseconds since the worker started.
    Clock(u64),
}

/// What the thread that runs the receive worker does next.
#[derive(PartialEq, Eq, Structural, Clone, Copy, Debug)]
pub enum ReceiveAction {
    /// Poll the command channel for one tick.
    PollCommand,
    /// Read the socket for one tick.
    ReadSocket,
    /// Display the buffer, clear it, then report the clock.
    Show,
    /// Clear the buffer without displaying it, then report the clock.
    Drain,
    /// Report the clock.
    CheckClock,
    /// Send the completion notice and return.
    Finish,
    /// Nothing: the worker has finished.
    Halt,
}

/// The receive worker's state.
#[derive(PartialEq, Eq, Structural, Clone, Copy, Debug)]
pub struct ReceiveWorker {
    pub timeout_secs: u32,
    pub paused: bool,
    pub running: bool,
}

/// One transition of the receive worker: its next state and its action.
pub open spec fn receive_step(s: ReceiveWorker, e: ReceiveEvent) -> (ReceiveWorker, ReceiveAction) {
    let stopped = ReceiveWorker { running: false, ..s };
    if !s.running {
        (s, ReceiveAction::Halt)
    } else {
        match e {
            ReceiveEvent::Bound(ok) => if ok {
                (s, ReceiveAction::PollCommand)
            } else {
                (stopped, ReceiveAction::Finish)
            },
            ReceiveEvent::Polled(c) => match c {
                Option::Some(Command::Quit) => (stopped, ReceiveAction::Finish),
                Option::Some(Command::Pause) => (ReceiveWorker { paused: true, ..s }, ReceiveAction::ReadSocket),
                Option::Some(Command::Resume) => (ReceiveWorker { paused: false, ..s }, ReceiveAction::ReadSocket),
                Option::None => (s, ReceiveAction::ReadSocket),
            },
            ReceiveEvent::Read(o) => match o {
                ReadOutcome::Data(n) => if n == 0 {
                    (s, ReceiveAction::CheckClock)
                } else if s.paused {
                    (s, ReceiveAction::Drain)
                } else {
                    (s, ReceiveAction::Show)
                },
                ReadOutcome::Nothing => (s, ReceiveAction::CheckClock),
            },
            ReceiveEvent::Clock(ms) => if deadline_reached(s.timeout_secs, ms) {
                (stopped, ReceiveAction::Finish)
            } else {
                (s, ReceiveAction::PollCommand)
            },
        }
    }
}

/// The states and actions of the receive worker over a run of events.
pub open spec fn receive_run(s: ReceiveWorker, evs: Seq<ReceiveEvent>) -> (ReceiveWorker, Seq<ReceiveAction>)
    decreases evs.len(),
{
    if evs.len() == 0 {
        (s, Seq::empty())
    } else {
        let (s1, a) = receive_step(s, evs[0]);
        let (s2, rest) = receive_run(s1, evs.subrange(1, evs.len() as int));
        (s2, seq![a] + rest)
    }
}

/// A finished receive worker does nothing more, whatever happens.
pub proof fn lemma_finished_receiver_is_inert(s: ReceiveWorker, evs: Seq<ReceiveEvent>)
    requires
        !s.running,
    ensures
        receive_run(s, evs).0 == s,
        receive_run(s, evs).1.len() == evs.len(),
        forall|i: int| 0 <= i < evs.len() ==> #[trigger] receive_run(s, evs).1[i] == ReceiveAction::Halt,
    decreases evs.len(),
{
    if evs.len() > 0 {
        lemma_finished_receiver_is_inert(s, evs.subrange(1, evs.len() as int));
    }
}

/// A receive worker sends at most one completion notice, and after sending it
/// does nothing more: no read, no display.
pub proof fn lemma_receiver_notifies_once(s: ReceiveWorker, evs: Seq<ReceiveEvent>)
    ensures
        receive_run(s, evs).1.len() == evs.len(),
        forall|i: int, j: int|
            0 <= i < j < evs.len() && #[trigger] receive_run(s, evs).1[i] == ReceiveAction::Finish
                ==> #[trigger] receive_run(s, evs).1[j] == ReceiveAction::Halt,
    decreases evs.len(),
{
    if evs.len() > 0 {
        let tail = evs.subrange(1, evs.len() as int);
        let (s1, a) = receive_step(s, evs[0]);
        lemma_receiver_notifies_once(s1, tail);
        if a == ReceiveAction::Finish {
            lemma_finished_receiver_is_inert(s1, tail);
        }
        let acts = receive_run(s, evs).1;
        let rest = receive_run(s1, tail).1;
        assert(acts == seq![a] + rest);
        assert forall|i: int, j: int|
            0 <= i < j < evs.len() && #[trigger] acts[i] == ReceiveAction::Finish
                implies #[trigger] acts[j] == ReceiveAction::Halt by {
            if i > 0 {
                assert(acts[i] == rest[i - 1]);
                assert(acts[j] == rest[j - 1]);
            } else {
                assert(acts[j] == rest[j - 1]);
            }
        }
    }
}

/// A running receive worker finishes, with its one notice, as soon as it gets
/// `Quit` or its socket cannot be bound.
pub proof fn lemma_receiver_stops_on_quit_or_bind_failure(s: ReceiveWorker)
    requires
        s.running,
    ensures
        receive_step(s, ReceiveEvent::Polled(Option::Some(Command::Quit))) == (ReceiveWorker { running: false, ..s }, ReceiveAction::Finish),
        receive_step(s, ReceiveEvent::Bound(false)) == (ReceiveWorker { running: false, ..s }, ReceiveAction::Finish),
{
}

/// After `Pause` an arriving datagram is drained without being displayed; after
/// `Resume` it is displayed.
pub proof fn lemma_pause_hides_data(s: ReceiveWorker, n: usize)
    requires
        s.running,
        n > 0,
    ensures
        receive_step(receive_step(s, ReceiveEvent::Polled(Option::Some(Command::Pause))).0, ReceiveEvent::Read(ReadOutcome::Data(n))).1 == ReceiveAction::Drain,
        receive_step(receive_step(s, ReceiveEvent::Polled(Option::Some(Command::Resume))).0, ReceiveEvent::Read(ReadOutcome::Data(n))).1 == ReceiveAction::Show,
{
}

/// With a timeout of `T > 0` seconds a running receive worker finishes exactly
/// when the clock it is given reaches `T` seconds.
pub proof fn lemma_receiver_deadline(s: ReceiveWorker, ms: u64)
    requires
        s.running,
        s.timeout_secs > 0,
    ensures
        (receive_step(s, ReceiveEvent::Clock(ms)).1 == ReceiveAction::Finish) == (ms as int >= s.timeout_secs as int * 1000),
{
}

impl ReceiveWorker {
    /// A running, unpaused worker with this timeout in seconds (zero: none).
    pub fn new(timeout_secs: u32) -> (r: ReceiveWorker)
        ensures
            r == (ReceiveWorker { timeout_secs, paused: false, running: true }),
    {
        ReceiveWorker { timeout_secs, paused: false, running: true }
    }

    /// Takes one event and says what to do next.
    pub fn step(&mut self, e: ReceiveEvent) -> (r: ReceiveAction)
        ensures
            (*final(self), r) == receive_step(*old(self), e),
    {
        if !self.running {
            return ReceiveAction::Halt;
        }
        match e {
            ReceiveEvent::Bound(ok) => {
                if ok {
                    ReceiveAction::PollCommand
                } else {
                    self.running = false;
                    ReceiveAction::Finish
                }
            },
            ReceiveEvent::Polled(c) => match c {
                Option::Some(Command::Quit) => {
                    self.running = false;
                    ReceiveAction::Finish
                },
                Option::Some(Command::Pause) => {
                    self.paused = true;
                    ReceiveAction::ReadSocket
                },
                Option::Some(Command::Resume) => {
                    self.paused = false;
                    ReceiveAction::ReadSocket
                },
                Option::None => ReceiveAction::ReadSocket,
            },
            ReceiveEvent::Read(o) => match o {
                ReadOutcome::Data(n) => {
                    if n == 0 {
                        ReceiveAction::CheckClock
                    } else if self.paused {
                        ReceiveAction::Drain
                    } else {
                        ReceiveAction::Show
                    }
                },
                ReadOutcome::Nothing => ReceiveAction::CheckClock,
            },
            ReceiveEvent::Clock(ms) => {
                if is_past_deadline(self.timeout_secs, ms) {
                    self.running = false;
                    ReceiveAction::Finish
                } else {
                    ReceiveAction::PollCommand
                }
            },
        }
    }

    /// Whether the worker still runs.
    pub fn is_running(&self) -> (r: bool)
        ensures
            r == self.running,
    {
        self.running
    }
}

} // verus!
