//! The I/O capability: 256 byte-wide ports behind which devices sit.
pub mod basic_io;

use vstd::prelude::*;

verus! {

/// A space of 256 ports. A device serves some ports for reading and some for
/// writing; what a write does to the device is the implementation's own
/// matter, stated by `after_write`.
pub trait IO: Sized {
    /// Whether the device serves reads of `port`.
    spec fn readable(&self, port: u8) -> bool;

    /// Whether the device serves writes to `port`.
    spec fn writable(&self, port: u8) -> bool;

    /// The byte that a read of `port` yields.
    spec fn input(&self, port: u8) -> u8;

    /// The device after `value` was written to `port`.
    spec fn after_write(&self, port: u8, value: u8) -> Self;

    /// Reads a port that the device serves for reading.
    fn read_port(&self, port: u8) -> (value: u8)
        requires
            self.readable(port),
        ensures
            value == self.input(port),
    ;

    /// Writes to a port that the device serves for writing.
    fn write_port(&mut self, port: u8, value: u8)
        requires
            old(self).writable(port),
        ensures
            *final(self) == old(self).after_write(port, value),
    ;

    /// Whether `read_port` may be called on `port`.
    fn can_read(&self, port: u8) -> (yes: bool)
        ensures
            yes == self.readable(port),
    ;

    /// Whether `write_port` may be called on `port`.
    fn can_write(&self, port: u8) -> (yes: bool)
        ensures
            yes == self.writable(port),
    ;
}

} // verus!
