//! The link to the sensor network: the messages, their text form, and the
//! transport that carries them.

pub mod message;
pub mod serial;
pub mod text;

use vstd::prelude::*;

verus! {

/// A transport that hands over one message at a time.
pub trait Gateway {
    /// Waits for the next line and reads it as a message.
    fn receive(&mut self) -> Result<message::Message, serial::MalformedStringError>;

    /// Sends a message to the network.
    fn send(&mut self, msg: &message::Message);
}

} // verus!
