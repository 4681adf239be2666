use vstd::prelude::*;
use crate::session::{Command, deadline_reached, is_past_deadline};

verus! {

/// What happened at the transmit worker, as the thread that runs it reports it.
#[derive(PartialEq, Eq, Structural, Clone, Copy, Debug)]
pub enum TransmitEvent {
    /// The socket was bound (`true`) or could not be (`false`).
    Bound(bool),
    /// The command channel was polled, with what it held.
    Polled(Option<Command>),
    /// The clock was read: milliseconds since the worker started.
    Clock(u64),
    /// A probe was handed to the socket; `false` if the send failed.
    Sent(bool),
}

/// What the thread that runs the transmit worker does next.
#[derive(PartialEq, Eq, Structural, Clone, Copy, Debug)]
pub enum TransmitAction {
    /// Poll the command channel for one tick.
    PollCommand,
    /// Report the clock.
    CheckClock,
    /// Send the probe with this sequence number, then report the outcome.
    Send(u64),
    /// Sleep one pacing interval, then poll the command channel.
    Sleep,
    /// Send the completion notice and return.
    Finish,
    /// Nothing: the worker has finished.
    Halt,
}

/// The transmit worker's state.
#[derive(PartialEq, Eq, Structural, Clone, Copy, Debug)]
pub struct TransmitWorker {
    pub timeout_secs: u32,
    pub next_seq: u64,
    pub running: bool,
}

/// One transition of the transmit worker: its next state and its action.
/// Pause and resume do not concern transmission. The worker also stops
/// once every sequence number has been used.
pub open spec fn transmit_step(s: TransmitWorker, e: TransmitEvent) -> (TransmitWorker, TransmitAction) {
    let stopped = TransmitWorker { running: false, ..s };
    if !s.running {
        (s, TransmitAction::Halt)
    } else {
        match e {
            TransmitEvent::Bound(ok) => if ok {
                (s, TransmitAction::PollCommand)
            } else {
                (stopped, TransmitAction::Finish)
            },
            TransmitEvent::Polled(c) => if c == Option::Some(Command::Quit) {
                (stopped, TransmitAction::Finish)
            } else {
                (s, TransmitAction::CheckClock)
            },
            TransmitEvent::Clock(ms) => if deadline_reached(s.timeout_secs, ms) || s.next_seq == u64::MAX {
                (stopped, TransmitAction::Finish)
            } else {
                (TransmitWorker { next_seq: (s.next_seq + 1) as u64, ..s }, TransmitAction::Send(s.next_seq))
            },
            TransmitEvent::Sent(_) => (s, TransmitAction::Sleep),
        }
    }
}

/// The states and actions of the transmit worker over a run of events.
pub open spec fn transmit_run(s: TransmitWorker, evs: Seq<TransmitEvent>) -> (TransmitWorker, Seq<TransmitAction>)
    decreases evs.len(),
{
    if evs.len() == 0 {
        (s, Seq::empty())
    } else {
        let (s1, a) = transmit_step(s, evs[0]);
        let (s2, rest) = transmit_run(s1, evs.subrange(1, evs.len() as int));
        (s2, seq![a] + rest)
    }
}

/// The sequence numbers of the probes among some actions, in order.
pub open spec fn sent_seqs(acts: Seq<TransmitAction>) -> Seq<u64>
    decreases acts.len(),
{
    if acts.len() == 0 {
        Seq::empty()
    } else {
        let rest = sent_seqs(acts.subrange(1, acts.len() as int));
        match acts[0] {
            TransmitAction::Send(n) => seq![n] + rest,
            _ => rest,
        }
    }
}

/// The decimal digits of `n`, as ASCII bytes.
pub open spec fn decimal(n: nat) -> Seq<u8>
    decreases n,
{
    if n < 10 {
        seq![(48 + n) as u8]
    } else {
        decimal(n / 10) + seq![(48 + n % 10) as u8]
    }
}

/// The fixed text that starts every probe.
pub open spec fn probe_prefix() -> Seq<u8> {
    seq![36u8, 83u8, 67u8, 80u8, 44u8, 48u8, 44u8, 49u8, 44u8]
}

/// The probe carrying sequence number `n`: `$SCP,0,1,` and `n` in decimal.
pub open spec fn probe(n: nat) -> Seq<u8> {
    probe_prefix() + decimal(n)
}

fn push_decimal(n: u64, out: &mut Vec<u8>)
    ensures
        final(out)@ == old(out)@ + decimal(n as nat),
    decreases n,
{
    if n >= 10 {
        push_decimal(n / 10, out);
    }
    out.push(48u8 + (n % 10) as u8);
    proof {
        assert(old(out)@ + decimal(n as nat) =~= final(out)@) by {
            if n >= 10 {
                assert(decimal(n as nat) == decimal((n / 10) as nat) + seq![(48 + n % 10) as u8]);
            }
        }
    }
}

/// The bytes of the probe with sequence number `n`.
pub fn probe_message(n: u64) -> (r: Vec<u8>)
    ensures
        r@ == probe(n as nat),
{
    let mut out: Vec<u8> = vec![36u8, 83u8, 67u8, 80u8, 44u8, 48u8, 44u8, 49u8, 44u8];
    assert(out@ =~= probe_prefix());
    push_decimal(n, &mut out);
    out
}

/// A finished transmit worker does nothing more, whatever happens.
pub proof fn lemma_finished_transmitter_is_inert(s: TransmitWorker, evs: Seq<TransmitEvent>)
    requires
        !s.running,
    ensures
        transmit_run(s, evs).0 == s,
        transmit_run(s, evs).1.len() == evs.len(),
        forall|i: int| 0 <= i < evs.len() ==> #[trigger] transmit_run(s, evs).1[i] == TransmitAction::Halt,
    decreases evs.len(),
{
    if evs.len() > 0 {
        lemma_finished_transmitter_is_inert(s, evs.subrange(1, evs.len() as int));
    }
}

/// A transmit worker sends at most one completion notice, and after sending it
/// does nothing more: in particular it never sends a probe again.
pub proof fn lemma_transmitter_notifies_once(s: TransmitWorker, evs: Seq<TransmitEvent>)
    ensures
        transmit_run(s, evs).1.len() == evs.len(),
        forall|i: int, j: int|
            0 <= i < j < evs.len() && #[trigger] transmit_run(s, evs).1[i] == TransmitAction::Finish
                ==> #[trigger] transmit_run(s, evs).1[j] == TransmitAction::Halt,
    decreases evs.len(),
{
    if evs.len() > 0 {
        let tail = evs.subrange(1, evs.len() as int);
        let (s1, a) = transmit_step(s, evs[0]);
        lemma_transmitter_notifies_once(s1, tail);
        if a == TransmitAction::Finish {
            lemma_finished_transmitter_is_inert(s1, tail);
        }
        let acts = transmit_run(s, evs).1;
        let rest = transmit_run(s1, tail).1;
        assert(acts == seq![a] + rest);
        assert forall|i: int, j: int|
            0 <= i < j < evs.len() && #[trigger] acts[i] == TransmitAction::Finish
                implies #[trigger] acts[j] == TransmitAction::Halt by {
            if i > 0 {
                assert(acts[i] == rest[i - 1]);
            }
            assert(acts[j] == rest[j - 1]);
        }
    }
}

/// A running transmit worker finishes, with its one notice, as soon as it gets
/// `Quit` or its socket cannot be bound.
pub proof fn lemma_transmitter_stops_on_quit_or_bind_failure(s: TransmitWorker)
    requires
        s.running,
    ensures
        transmit_step(s, TransmitEvent::Polled(Option::Some(Command::Quit))) == (TransmitWorker { running: false, ..s }, TransmitAction::Finish),
        transmit_step(s, TransmitEvent::Bound(false)) == (TransmitWorker { running: false, ..s }, TransmitAction::Finish),
{
}

/// With a timeout of `T > 0` seconds a running transmit worker finishes once
/// the clock reaches `T` seconds, and before that sends its next probe
/// (while sequence numbers remain).
pub proof fn lemma_transmitter_deadline(s: TransmitWorker, ms: u64)
    requires
        s.running,
        s.timeout_secs > 0,
        s.next_seq < u64::MAX,
    ensures
        (transmit_step(s, TransmitEvent::Clock(ms)).1 == TransmitAction::Finish) == (ms as int >= s.timeout_secs as int * 1000),
        ms as int >= s.timeout_secs as int * 1000 || transmit_step(s, TransmitEvent::Clock(ms)).1 == TransmitAction::Send(s.next_seq),
{
}

/// The probes a transmit worker sends carry consecutive sequence numbers,
/// starting from its next one, whether or not earlier sends failed.
pub proof fn lemma_probe_sequence(s: TransmitWorker, evs: Seq<TransmitEvent>)
    ensures
        transmit_run(s, evs).0.next_seq >= s.next_seq,
        sent_seqs(transmit_run(s, evs).1) == Seq::new(
            (transmit_run(s, evs).0.next_seq - s.next_seq) as nat,
            |i: int| (s.next_seq + i) as u64,
        ),
    decreases evs.len(),
{
    if evs.len() > 0 {
        let tail = evs.subrange(1, evs.len() as int);
        let (s1, a) = transmit_step(s, evs[0]);
        lemma_probe_sequence(s1, tail);
        let acts = transmit_run(s, evs).1;
        let rest = transmit_run(s1, tail).1;
        assert(acts == seq![a] + rest);
        assert(acts.subrange(1, acts.len() as int) =~= rest);
        let k = (transmit_run(s, evs).0.next_seq - s.next_seq) as nat;
        assert(sent_seqs(acts) =~= Seq::new(k, |i: int| (s.next_seq + i) as u64));
    } else {
        assert(sent_seqs(transmit_run(s, evs).1) =~= Seq::new(0, |i: int| (s.next_seq + i) as u64));
    }
}

impl TransmitWorker {
    /// A running worker with this timeout in seconds (zero: none), whose first probe is number 0.
    pub fn new(timeout_secs: u32) -> (r: TransmitWorker)
        ensures
            r == (TransmitWorker { timeout_secs, next_seq: 0, running: true }),
    {
        TransmitWorker { timeout_secs, next_seq: 0, running: true }
    }

    /// Takes one event and says what to do next.
    pub fn step(&mut self, e: TransmitEvent) -> (r: TransmitAction)
        ensures
            (*final(self), r) == transmit_step(*old(self), e),
    {
        if !self.running {
            return TransmitAction::Halt;
        }
        match e {
            TransmitEvent::Bound(ok) => {
                if ok {
                    TransmitAction::PollCommand
                } else {
                    self.running = false;
                    TransmitAction::Finish
                }
            },
            TransmitEvent::Polled(c) => {
                if c == Option::Some(Command::Quit) {
                    self.running = false;
                    TransmitAction::Finish
                } else {
                    TransmitAction::CheckClock
                }
            },
            TransmitEvent::Clock(ms) => {
                if is_past_deadline(self.timeout_secs, ms) || self.next_seq == u64::MAX {
                    self.running = false;
                    TransmitAction::Finish
                } else {
                    let n = self.next_seq;
                    self.next_seq = n + 1;
                    TransmitAction::Send(n)
                }
            },
            TransmitEvent::Sent(_) => TransmitAction::Sleep,
        }
    }

    /// Whether the worker still runs.
    pub fn is_running(&self) -> (r: bool)
        ensures
            r == self.running,
    {
        self.running
    }
}

} // verus!
