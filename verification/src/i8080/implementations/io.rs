//! I/O instructions: the accumulator goes out to a port or comes in from
//! one.
use crate::i8080::error::EmulateError;
use crate::i8080::register::Register;
use crate::i8080::state::{cpu_effect, CpuState};
use crate::i8080::I8080;
use crate::instruction::opcode::Opcode;
use crate::instruction::InstructionData;
use crate::io::IO;
use vstd::prelude::*;

verus! {

/// Whether a write to a device went as `expected` says: on failure the
/// device is untouched.
pub open spec fn device_effect<U>(
    pre: U,
    post: U,
    result: Result<(), EmulateError>,
    expected: Result<U, EmulateError>,
) -> bool {
    match expected {
        Ok(next) => result is Ok && post == next,
        Err(error) => result == Err::<(), EmulateError>(error) && post == pre,
    }
}

impl CpuState {
    /// `OUT`: the accumulator is written to the port that the operand byte
    /// names. A port that the device does not serve for writing is refused.
    pub open spec fn out<U: IO>(self, data: InstructionData, io: U) -> Result<U, EmulateError> {
        match data.leading() {
            Some(port) => if io.writable(port) {
                Ok(io.after_write(port, self.a))
            } else {
                Err(EmulateError::UnsupportedPort { port })
            },
            None => Err(EmulateError::InvalidInstructionData { opcode: Opcode::OUT, data }),
        }
    }

    /// `IN`: the accumulator receives the byte read from the port that the
    /// operand byte names. A port that the device does not serve for reading
    /// is refused.
    pub open spec fn input<U: IO>(self, data: InstructionData, io: U) -> Result<
        CpuState,
        EmulateError,
    > {
        match data.leading() {
            Some(port) => if io.readable(port) {
                Ok(self.set8(Register::A, io.input(port)))
            } else {
                Err(EmulateError::UnsupportedPort { port })
            },
            None => Err(EmulateError::InvalidInstructionData { opcode: Opcode::IN, data }),
        }
    }
}

impl I8080 {
    /// Executes `OUT`. The CPU itself does not change.
    pub fn out<U: IO>(&mut self, data: InstructionData, io: &mut U) -> (result: Result<
        (),
        EmulateError,
    >)
        ensures
            final(self)@ == old(self)@,
            device_effect(*old(io), *final(io), result, old(self)@.out(data, *old(io))),
    {
        if let Some(port) = data.first() {
            if !io.can_write(port) {
                return Err(EmulateError::UnsupportedPort { port });
            }
            let a = self.get_8bit_register(Register::A)?;
            io.write_port(port, a);
        } else {
            return Err(EmulateError::InvalidInstructionData { opcode: Opcode::OUT, data });
        }
        Ok(())
    }

    /// Executes `IN`. The device is only read.
    pub fn input<U: IO>(&mut self, data: InstructionData, io: &U) -> (result: Result<
        (),
        EmulateError,
    >)
        ensures
            cpu_effect(old(self)@, final(self)@, result, old(self)@.input(data, *io)),
    {
        if let Some(port) = data.first() {
            if !io.can_read(port) {
                return Err(EmulateError::UnsupportedPort { port });
            }
            self.set_8bit_register(Register::A, io.read_port(port));
        } else {
            return Err(EmulateError::InvalidInstructionData { opcode: Opcode::IN, data });
        }
        Ok(())
    }
}

} // verus!
