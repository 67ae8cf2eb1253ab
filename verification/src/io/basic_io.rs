//! The devices of the basic machine: three input latches and a 16-bit
//! shift register.
use crate::io::IO;
use vstd::prelude::*;

verus! {

/// A 16-bit shift register with a read offset. A byte shifted in becomes the
/// high byte and pushes the old high byte down; a read yields eight bits of
/// the window, counted from the top after the window was shifted left by the
/// offset.
#[derive(Clone, Copy, Debug, PartialEq, Eq, Structural)]
pub struct ShiftRegister {
    /// The 16-bit window.
    pub value: u16,
    /// The read offset, as last written.
    pub offset: u8,
}

impl ShiftRegister {
    /// The byte that a read yields: bits `15 - s` down to `8 - s` of the
    /// window, where `s` is the offset modulo 9; below bit 0 the byte is
    /// filled with zeros.
    pub open spec fn window(self) -> u8 {
        (((self.value * weight(self.offset % 9)) / 256) % 256) as u8
    }

    /// The register after `value` was shifted in: `value` is the new high
    /// byte and the old high byte is the new low byte.
    pub open spec fn shifted_in(self, value: u8) -> ShiftRegister {
        ShiftRegister { value: (value * 256 + self.value / 256) as u16, offset: self.offset }
    }

    /// Reads the register through its offset.
    pub fn read(&self) -> (byte: u8)
        ensures
            byte == self.window(),
    {
        let shift = self.offset % 9;
        let window = self.value;
        assert(shift < 9 ==> ((window << shift) | 0xf0u16) >> 8u16 == ((window * weight(shift))
            / 256) % 256) by (bit_vector);
        let value = self.value << shift;
        let value = value | 0xf0;
        (value >> 8) as u8
    }

    /// Shifts a byte in at the top.
    pub fn insert_value(&mut self, value: u8)
        ensures
            *final(self) == old(self).shifted_in(value),
    {
        let window = self.value;
        assert(((window >> 8u16) | ((value as u16) << 8u16)) == value * 256 + window / 256)
            by (bit_vector);
        let v = self.value >> 8;
        self.value = v | (value as u16) << 8;
    }
}

/// Two to the power `exponent`, for the exponents 0 to 8.
pub open spec fn weight(exponent: u8) -> u16 {
    if exponent == 0 {
        1
    } else if exponent == 1 {
        2
    } else if exponent == 2 {
        4
    } else if exponent == 3 {
        8
    } else if exponent == 4 {
        16
    } else if exponent == 5 {
        32
    } else if exponent == 6 {
        64
    } else if exponent == 7 {
        128
    } else {
        256
    }
}

/// The devices behind the ports: input latches on ports 0, 1 and 2, the
/// shift register read on port 3, its offset written on port 2 and its data
/// written on port 4. Writes to ports 3, 5 and 6 are accepted and dropped.
#[derive(Clone, Copy, Debug, PartialEq, Eq, Structural)]
pub struct BasicIO {
    /// The latch read on port 0.
    pub input_0: u8,
    /// The latch read on port 1.
    pub input_1: u8,
    /// The latch read on port 2.
    pub input_2: u8,
    /// The shift register.
    pub shift_register: ShiftRegister,
}

impl Default for ShiftRegister {
    /// A register with an empty window and offset zero.
    fn default() -> (register: ShiftRegister)
        ensures
            register == (ShiftRegister { value: 0, offset: 0 }),
    {
        ShiftRegister { value: 0, offset: 0 }
    }
}

impl Default for BasicIO {
    /// Devices at rest: latches zero, shift register empty.
    fn default() -> (io: BasicIO)
        ensures
            io == BasicIO::at_rest(),
    {
        BasicIO { input_0: 0, input_1: 0, input_2: 0, shift_register: ShiftRegister::default() }
    }
}

impl BasicIO {
    /// The devices at rest.
    pub open spec fn at_rest() -> BasicIO {
        BasicIO {
            input_0: 0,
            input_1: 0,
            input_2: 0,
            shift_register: ShiftRegister { value: 0, offset: 0 },
        }
    }
}

impl IO for BasicIO {
    open spec fn readable(&self, port: u8) -> bool {
        port <= 3
    }

    open spec fn writable(&self, port: u8) -> bool {
        2 <= port <= 6
    }

    open spec fn input(&self, port: u8) -> u8 {
        if port == 0 {
            self.input_0
        } else if port == 1 {
            self.input_1
        } else if port == 2 {
            self.input_2
        } else {
            self.shift_register.window()
        }
    }

    open spec fn after_write(&self, port: u8, value: u8) -> BasicIO {
        if port == 2 {
            BasicIO {
                shift_register: ShiftRegister { offset: value, ..self.shift_register },
                ..*self
            }
        } else if port == 4 {
            BasicIO { shift_register: self.shift_register.shifted_in(value), ..*self }
        } else {
            *self
        }
    }

    fn read_port(&self, port: u8) -> (value: u8) {
        match port {
            0 => self.input_0,
            1 => self.input_1,
            2 => self.input_2,
            _ => self.shift_register.read(),
        }
    }

    fn write_port(&mut self, port: u8, value: u8) {
        match port {
            2 => self.shift_register.offset = value,
            4 => self.shift_register.insert_value(value),
            _ => {},
        }
    }

    fn can_read(&self, port: u8) -> (yes: bool) {
        port <= 3
    }

    fn can_write(&self, port: u8) -> (yes: bool) {
        2 <= port && port <= 6
    }
}

} // verus!
