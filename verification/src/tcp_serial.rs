//! The simulator's serial port over TCP: the port is handed to the first
//! client that asks, and incoming bytes are taken in bounded grants.
use crate::uart::{PortAssignment, SimpleSerialError};
use vstd::prelude::*;

verus! {

/// The TCP serial port driver.
pub struct TcpSerial {
    _inner: (),
}

/// The most bytes taken from the socket at once.
pub const INCOMING_GRANT_MAX: usize = 256;

impl TcpSerial {
    /// Answers a request for the serial port: the first requester gets it,
    /// every later one is refused.
    pub fn answer_port_request(ports: &mut PortAssignment) -> (r: Result<(), SimpleSerialError>)
        ensures
            final(ports).assigned,
            r is Ok <==> !old(ports).assigned,
            r is Err ==> r == Err::<(), SimpleSerialError>(SimpleSerialError::AlreadyAssignedPort),
    {
        ports.request_port()
    }
}

} // verus!
