//! Input latches and a shift register that is read without an offset.
use crate::io_port::IOPort;
use vstd::prelude::*;

verus! {

/// A 16-bit shift register of which a read yields the low byte. The offset
/// is kept as written and does not enter the read.
#[derive(Clone, Copy, Debug, PartialEq, Eq, Structural)]
pub struct ShiftRegister {
    /// The 16-bit window.
    pub value: u16,
    /// The offset, as last written.
    pub offset: u8,
}

impl ShiftRegister {
    /// The register after `value` was shifted in: `value` is the new high
    /// byte and the old high byte is the new low byte.
    pub open spec fn shifted_in(self, value: u8) -> ShiftRegister {
        ShiftRegister { value: (value * 256 + self.value / 256) as u16, offset: self.offset }
    }

    /// The low byte of the window.
    pub fn read(&self) -> (byte: u8)
        ensures
            byte == self.value % 256,
    {
        let window = self.value;
        assert(window & 0xff == window % 256) by (bit_vector);
        (self.value & 0xff) as u8
    }

    /// Shifts a byte in at the top.
    pub fn insert_value(&mut self, value: u8)
        ensures
            *final(self) == old(self).shifted_in(value),
    {
        let window = self.value;
        assert(((window >> 8u16) | ((value as u16) << 8u16)) == value * 256 + window / 256)
            by (bit_vector);
        let v = self.value >> 8;
        self.value = v | (value as u16) << 8;
    }
}

/// Input latches on ports 0, 1 and 2 and the shift register on port 3; the
/// offset is written on port 2 and data on port 4. No other port is served.
#[derive(Clone, Copy, Debug, PartialEq, Eq, Structural)]
pub struct BasicIO {
    /// The latch read on port 0.
    pub input_0: u8,
    /// The latch read on port 1.
    pub input_1: u8,
    /// The latch read on port 2.
    pub input_2: u8,
    /// The shift register.
    pub shift_register: ShiftRegister,
}

impl Default for BasicIO {
    /// Devices at rest: latches zero, shift register empty.
    fn default() -> (io: BasicIO)
        ensures
            io == (BasicIO {
                input_0: 0,
                input_1: 0,
                input_2: 0,
                shift_register: ShiftRegister { value: 0, offset: 0 },
            }),
    {
        BasicIO {
            input_0: 0,
            input_1: 0,
            input_2: 0,
            shift_register: ShiftRegister { value: 0, offset: 0 },
        }
    }
}

impl IOPort for BasicIO {
    open spec fn readable(&self, port: u8) -> bool {
        port <= 3
    }

    open spec fn writable(&self, port: u8) -> bool {
        port == 2 || port == 4
    }

    open spec fn input(&self, port: u8) -> u8 {
        if port == 0 {
            self.input_0
        } else if port == 1 {
            self.input_1
        } else if port == 2 {
            self.input_2
        } else {
            (self.shift_register.value % 256) as u8
        }
    }

    open spec fn after_write(&self, port: u8, value: u8) -> BasicIO {
        if port == 2 {
            BasicIO {
                shift_register: ShiftRegister { offset: value, ..self.shift_register },
                ..*self
            }
        } else {
            BasicIO { shift_register: self.shift_register.shifted_in(value), ..*self }
        }
    }

    fn read_port(&self, port: u8) -> (value: u8) {
        match port {
            0 => self.input_0,
            1 => self.input_1,
            2 => self.input_2,
            _ => self.shift_register.read(),
        }
    }

    fn write_port(&mut self, port: u8, value: u8) {
        match port {
            2 => self.shift_register.offset = value,
            _ => self.shift_register.insert_value(value),
        }
    }
}

} // verus!
