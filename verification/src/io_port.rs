//! A plain port interface for devices that are driven without a CPU.
pub mod basic_io;

use vstd::prelude::*;

verus! {

/// A device that answers on some of 256 ports.
pub trait IOPort: Sized {
    /// Whether the device serves reads of `port`.
    spec fn readable(&self, port: u8) -> bool;

    /// Whether the device serves writes to `port`.
    spec fn writable(&self, port: u8) -> bool;

    /// The byte that a read of `port` yields.
    spec fn input(&self, port: u8) -> u8;

    /// The device after `value` was written to `port`.
    spec fn after_write(&self, port: u8, value: u8) -> Self;

    /// Reads a port that the device serves for reading.
    fn read_port(&self, port: u8) -> (value: u8)
        requires
            self.readable(port),
        ensures
            value == self.input(port),
    ;

    /// Writes to a port that the device serves for writing.
    fn write_port(&mut self, port: u8, value: u8)
        requires
            old(self).writable(port),
        ensures
            *final(self) == old(self).after_write(port, value),
    ;
}

} // verus!
