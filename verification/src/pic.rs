//! The interrupt controller: a place for one instruction that a device
//! wants executed ahead of the program.
use crate::instruction::Instruction;
use vstd::prelude::*;

verus! {

/// Holds at most one pending interrupt. There is no queue and no priority: a
/// new interrupt replaces one that is still pending.
pub struct InterruptController {
    interrupt: Option<Instruction>,
}

impl View for InterruptController {
    type V = Option<Instruction>;

    /// The pending instruction, if there is one.
    closed spec fn view(&self) -> Option<Instruction> {
        self.interrupt
    }
}

impl Default for InterruptController {
    /// An idle controller.
    fn default() -> (controller: InterruptController)
        ensures
            controller@ is None,
    {
        InterruptController { interrupt: None }
    }
}

impl InterruptController {
    /// Makes `instruction` the pending interrupt, in place of any that was
    /// pending.
    pub fn generate_interrupt(&mut self, instruction: Instruction)
        ensures
            final(self)@ == Some(instruction),
    {
        self.interrupt = Some(instruction);
    }

    /// Takes the pending interrupt out and leaves the controller idle. From
    /// an idle controller nothing comes out.
    pub fn consume_interrupt(&mut self) -> (taken: Option<Instruction>)
        ensures
            taken == old(self)@,
            final(self)@ is None,
    {
        match self.interrupt {
            Some(_) => {
                let ret = self.interrupt;
                self.interrupt = None;
                ret
            },
            None => None,
        }
    }

    /// Whether an interrupt is pending.
    pub fn is_pending(&self) -> (pending: bool)
        ensures
            pending == self@.is_some(),
    {
        self.interrupt.is_some()
    }
}

} // verus!
