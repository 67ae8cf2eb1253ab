//! The instructions, grouped as the instruction set groups them.
pub mod arithmetic;
pub mod branch;
pub mod data_transfer;
pub mod io;
pub mod logical;
