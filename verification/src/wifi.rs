//! The ESP32-C3 WiFi driver's frame transmission: a frame is copied into
//! the radio's transmit buffers piece by piece.
use vstd::prelude::*;

verus! {

/// The largest frame: the radio driver's default MTU.
pub const MTU: usize = 1492;

/// The WiFi control service.
pub struct WifiService;

/// The WiFi driver.
pub struct Wifi {}

impl Wifi {
    /// How many bytes of a frame with `remaining` bytes left go into a
    /// transmit buffer of `buf_len` bytes: all of them if they fit, else a
    /// full buffer.
    pub fn tx_piece(remaining: usize, buf_len: usize) -> (r: usize)
        ensures
            r == if buf_len >= remaining { remaining } else { buf_len },
    {
        if buf_len >= remaining {
            remaining
        } else {
            buf_len
        }
    }
}

} // verus!
