use vstd::prelude::*;

verus! {

/// The traffic directions a session can run.
#[derive(PartialEq, Eq, Structural, Clone, Copy, Debug)]
pub enum Direction {
    Neither,
    Send,
    Receive,
    SendReceive,
}

impl Direction {
    pub open spec fn receives(self) -> bool {
        self == Direction::Receive || self == Direction::SendReceive
    }

    pub open spec fn sends(self) -> bool {
        self == Direction::Send || self == Direction::SendReceive
    }

    /// The direction selected by the send and receive switches.
    pub fn from_flags(send: bool, receive: bool) -> (r: Direction)
        ensures
            r.sends() == send,
            r.receives() == receive,
    {
        if send && receive {
            Direction::SendReceive
        } else if send {
            Direction::Send
        } else if receive {
            Direction::Receive
        } else {
            Direction::Neither
        }
    }

    /// What a session in this direction is doing, as shown to the user.
    pub fn label(&self) -> (r: &'static str)
        ensures
            *self == Direction::Neither ==> r@ == "No Transmit nor Receive"@,
            *self == Direction::Receive ==> r@ == "Receiving...."@,
            *self == Direction::Send ==> r@ == "Transmitting...."@,
            *self == Direction::SendReceive ==> r@ == "Receiving and Transmitting...."@,
    {
        match self {
            Direction::Neither => "No Transmit nor Receive",
            Direction::Receive => "Receiving....",
            Direction::Send => "Transmitting....",
            Direction::SendReceive => "Receiving and Transmitting....",
        }
    }

    /// Whether a session in this direction runs a receive worker.
    pub fn has_receiver(&self) -> (r: bool)
        ensures
            r == self.receives(),
    {
        *self == Direction::Receive || *self == Direction::SendReceive
    }

    /// Whether a session in this direction runs a transmit worker.
    pub fn has_transmitter(&self) -> (r: bool)
        ensures
            r == self.sends(),
    {
        *self == Direction::Send || *self == Direction::SendReceive
    }
}

/// A command from the supervisor to one worker.
#[derive(PartialEq, Eq, Structural, Clone, Copy, Debug)]
pub enum Command {
    Quit,
    Pause,
    Resume,
}

/// The deadline in milliseconds of a timeout given in seconds; zero means none.
pub open spec fn deadline_ms(timeout_secs: u32) -> int {
    timeout_secs as int * 1000
}

/// Whether a worker with this timeout has reached its deadline after `elapsed_ms`.
pub open spec fn deadline_reached(timeout_secs: u32, elapsed_ms: u64) -> bool {
    timeout_secs != 0 && elapsed_ms as int >= deadline_ms(timeout_secs)
}

/// Tells whether the deadline of a worker is reached.
pub fn is_past_deadline(timeout_secs: u32, elapsed_ms: u64) -> (r: bool)
    ensures
        r == deadline_reached(timeout_secs, elapsed_ms),
{
    timeout_secs != 0 && elapsed_ms >= (timeout_secs as u64) * 1000
}

} // verus!
