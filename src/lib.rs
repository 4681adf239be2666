//! Coordination of a duplex UDP probe session: a supervisor that turns key
//! presses and completion notices into worker commands, and receive and
//! transmit workers written as state machines over the events their threads
//! report.

pub mod session;
pub mod receive;
pub mod transmit;
pub mod supervisor;
