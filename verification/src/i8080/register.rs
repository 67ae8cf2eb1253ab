//! Register cells and the names by which instructions refer to them.
use crate::i8080::TwosComplement;
use vstd::prelude::*;

verus! {

/// A register cell: the value it holds and a marker that records whether the
/// cell was written since the marker was last cleared. The marker only serves
/// diagnostic display.
pub struct Reg<T> {
    value: T,
    has_changed: bool,
}

impl<T> Reg<T> {
    /// The value held by the cell.
    pub closed spec fn value(&self) -> T {
        self.value
    }

    /// Whether the cell was written since its marker was last cleared.
    pub closed spec fn changed(&self) -> bool {
        self.has_changed
    }
}

impl<T: Copy> Reg<T> {

    /// A cell that holds `value` and is not marked as changed.
    pub fn new(value: T) -> (reg: Self)
        ensures
            reg.value() == value,
            !reg.changed(),
    {
        Reg { value, has_changed: false }
    }

    /// Stores `value` and marks the cell as changed, even where the value
    /// stored equals the one held before.
    pub fn set(&mut self, value: T)
        ensures
            final(self).value() == value,
            final(self).changed(),
    {
        self.value = value;
        self.has_changed = true;
    }

    /// Clears the marker and keeps the value.
    pub fn reset_changed(&mut self)
        ensures
            final(self).value() == old(self).value(),
            !final(self).changed(),
    {
        self.has_changed = false;
    }

    /// Reads the value.
    pub fn get(&self) -> (value: T)
        ensures
            value == self.value(),
    {
        self.value
    }

    /// Reads the marker.
    pub fn has_changed(&self) -> (changed: bool)
        ensures
            changed == self.changed(),
    {
        self.has_changed
    }
}

impl<U, T: TwosComplement<U>> TwosComplement<U> for Reg<T> {
    type Output = T::Output;

    /// The difference that the value held yields.
    open spec fn difference(&self, subtrahend: U) -> T::Output {
        self.value().difference(subtrahend)
    }

    fn complement_sub(&self, subtrahend: U) -> (out: T::Output) {
        self.value.complement_sub(subtrahend)
    }
}

/// The operand names of the instruction set: the seven 8-bit registers, the
/// pseudo-register `M` (the memory byte addressed by `H:L`) and the stack
/// pointer.
#[derive(Clone, Copy, Debug, PartialEq, Eq, Structural)]
pub enum Register {
    A,
    B,
    C,
    D,
    E,
    H,
    L,
    M,
    SP,
}

impl Register {
    /// The low register of the pair that `self` leads, if it leads one.
    pub open spec fn pair(self) -> Option<Register> {
        match self {
            Register::B => Some(Register::C),
            Register::D => Some(Register::E),
            Register::H => Some(Register::L),
            _ => None,
        }
    }

    /// Whether `self` names one of the seven 8-bit register cells.
    pub open spec fn eight_bit(self) -> bool {
        self != Register::M && self != Register::SP
    }

    /// The letter by which `self` is displayed.
    pub open spec fn letter(self) -> Seq<char> {
        match self {
            Register::A => seq!['A'],
            Register::B => seq!['B'],
            Register::C => seq!['C'],
            Register::D => seq!['D'],
            Register::E => seq!['E'],
            Register::H => seq!['H'],
            Register::L => seq!['L'],
            Register::M => seq!['M'],
            Register::SP => seq!['S'],
        }
    }

    /// The low register paired with `self`: `C` for `B`, `E` for `D`, `L` for
    /// `H`, and none for every other name.
    pub fn get_pair(&self) -> (low: Option<Register>)
        ensures
            low == self.pair(),
    {
        match self {
            Register::B => Some(Register::C),
            Register::D => Some(Register::E),
            Register::H => Some(Register::L),
            _ => None,
        }
    }

    /// Whether `self` is one of `A`, `B`, `C`, `D`, `E`, `H`, `L`.
    pub fn is_8bit(&self) -> (yes: bool)
        ensures
            yes == self.eight_bit(),
    {
        match self {
            Register::A => true,
            Register::B => true,
            Register::C => true,
            Register::D => true,
            Register::E => true,
            Register::H => true,
            Register::L => true,
            Register::M => false,
            Register::SP => false,
        }
    }

    /// The one-letter name used when a register is displayed; the stack
    /// pointer shows as `S`.
    pub fn name(&self) -> (text: &'static str)
        ensures
            text@ == self.letter(),
    {
        proof {
            reveal_strlit("A");
            reveal_strlit("B");
            reveal_strlit("C");
            reveal_strlit("D");
            reveal_strlit("E");
            reveal_strlit("H");
            reveal_strlit("L");
            reveal_strlit("M");
            reveal_strlit("S");
        }
        match self {
            Register::A => "A",
            Register::B => "B",
            Register::C => "C",
            Register::D => "D",
            Register::E => "E",
            Register::H => "H",
            Register::L => "L",
            Register::M => "M",
            Register::SP => "S",
        }
    }
}

} // verus!
