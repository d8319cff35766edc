//! A register-machine emulator for a simple 32-bit instruction set.
//!
//! The crate is organised as the machine is: a bit-field codec
//! ([`bitpack`]), an instruction decoder ([`um_instruction`]), a register
//! file ([`register`]), a segmented memory manager ([`segment`]), and the
//! execution engine ([`rum`]) that drives the fetch-decode-execute loop.

pub mod bitpack;
pub mod register;
pub mod rum;
pub mod segment;
pub mod um_instruction;
