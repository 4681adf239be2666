use vstd::prelude::*;
use crate::session::{Command, Direction};

verus! {

/// The commands the supervisor sends after one event, and whether its loop ends.
#[derive(PartialEq, Eq, Structural, Clone, Copy, Debug)]
pub struct Dispatch {
    pub to_receiver: Option<Command>,
    pub to_transmitter: Option<Command>,
    pub exit: bool,
}

/// The supervisor's state: which workers it started, and whether its loop still runs.
#[derive(PartialEq, Eq, Structural, Clone, Copy, Debug)]
pub struct Supervisor {
    pub receiver: bool,
    pub transmitter: bool,
    pub looping: bool,
}

/// `Quit` to every started worker, and the end of the loop.
pub open spec fn quit_all(s: Supervisor) -> Dispatch {
    Dispatch {
        to_receiver: if s.receiver { Option::Some(Command::Quit) } else { Option::None },
        to_transmitter: if s.transmitter { Option::Some(Command::Quit) } else { Option::None },
        exit: true,
    }
}

/// No command to either worker.
pub open spec fn nothing(exit: bool) -> Dispatch {
    Dispatch { to_receiver: Option::None, to_transmitter: Option::None, exit }
}

/// The supervisor's answer to a key press: `q` quits, `p` pauses and `r`
/// resumes the receive worker's display; other keys are ignored.
pub open spec fn key_step(s: Supervisor, key: char) -> (Supervisor, Dispatch) {
    if !s.looping {
        (s, nothing(true))
    } else if key == 'q' {
        (Supervisor { looping: false, ..s }, quit_all(s))
    } else if key == 'p' && s.receiver {
        (s, Dispatch { to_receiver: Option::Some(Command::Pause), ..nothing(false) })
    } else if key == 'r' && s.receiver {
        (s, Dispatch { to_receiver: Option::Some(Command::Resume), ..nothing(false) })
    } else {
        (s, nothing(false))
    }
}

/// The supervisor's answer to a completion notice from any worker: it stops every worker.
pub open spec fn notice_step(s: Supervisor) -> (Supervisor, Dispatch) {
    if !s.looping {
        (s, nothing(true))
    } else {
        (Supervisor { looping: false, ..s }, quit_all(s))
    }
}

/// Which workers run is fixed by the direction and never changed by a key or a
/// notice, so the workers joined at shutdown are exactly those started; a quit
/// reaches each started worker and no other.
pub proof fn lemma_started_workers_are_joined(s: Supervisor, key: char)
    ensures
        key_step(s, key).0.receiver == s.receiver,
        key_step(s, key).0.transmitter == s.transmitter,
        notice_step(s).0.receiver == s.receiver,
        notice_step(s).0.transmitter == s.transmitter,
        quit_all(s).to_receiver is Some == s.receiver,
        quit_all(s).to_transmitter is Some == s.transmitter,
{
}

/// The first completion notice ends the supervisor's loop and sends `Quit` to
/// every started worker; no second notice is needed.
pub proof fn lemma_first_notice_ends_loop(s: Supervisor)
    requires
        s.looping,
    ensures
        notice_step(s).1 == quit_all(s),
        notice_step(s).1.exit,
        !notice_step(s).0.looping,
{
}

fn quit_started(receiver: bool, transmitter: bool) -> (r: Dispatch)
    ensures
        r == quit_all(Supervisor { receiver, transmitter, looping: true }),
{
    Dispatch {
        to_receiver: if receiver { Option::Some(Command::Quit) } else { Option::None },
        to_transmitter: if transmitter { Option::Some(Command::Quit) } else { Option::None },
        exit: true,
    }
}

impl Supervisor {
    /// Starts the workers that the direction asks for.
    pub fn new(dir: Direction) -> (r: Supervisor)
        ensures
            r == (Supervisor { receiver: dir.receives(), transmitter: dir.sends(), looping: true }),
    {
        Supervisor { receiver: dir.has_receiver(), transmitter: dir.has_transmitter(), looping: true }
    }

    /// Handles a key press.
    pub fn on_key(&mut self, key: char) -> (r: Dispatch)
        ensures
            (*final(self), r) == key_step(*old(self), key),
    {
        if !self.looping {
            return Dispatch { to_receiver: Option::None, to_transmitter: Option::None, exit: true };
        }
        if key == 'q' {
            self.looping = false;
            quit_started(self.receiver, self.transmitter)
        } else if key == 'p' && self.receiver {
            Dispatch { to_receiver: Option::Some(Command::Pause), to_transmitter: Option::None, exit: false }
        } else if key == 'r' && self.receiver {
            Dispatch { to_receiver: Option::Some(Command::Resume), to_transmitter: Option::None, exit: false }
        } else {
            Dispatch { to_receiver: Option::None, to_transmitter: Option::None, exit: false }
        }
    }

    /// Handles a completion notice.
    pub fn on_notice(&mut self) -> (r: Dispatch)
        ensures
            (*final(self), r) == notice_step(*old(self)),
    {
        if !self.looping {
            return Dispatch { to_receiver: Option::None, to_transmitter: Option::None, exit: true };
        }
        self.looping = false;
        quit_started(self.receiver, self.transmitter)
    }

    /// Whether the receive worker must be joined at shutdown.
    pub fn joins_receiver(&self) -> (r: bool)
        ensures
            r == self.receiver,
    {
        self.receiver
    }

    /// Whether the transmit worker must be joined at shutdown.
    pub fn joins_transmitter(&self) -> (r: bool)
        ensures
            r == self.transmitter,
    {
        self.transmitter
    }
}

} // verus!
