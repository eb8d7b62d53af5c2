//! Cycle-stepped cores of the Intel 8080 / 8085 and the Zilog Z80.
//!
//! - [`alu`]: the 8080 family's flags and the pure operations computing them.
//! - [`bus`]: the bus traits: whole transactions for the 8080 / 8085, pins for
//!   the Z80.
//! - [`i8080`]: the 8080 / 8085 core, one M-cycle per tick, with its model,
//!   opcode table and laws.
//! - [`z80`]: the Z80 core, one T-state per tick, with its model and laws.
//! - [`debugger`]: command parsing and breakpoints of a line debugger.
//! - [`invaders`]: the Space Invaders cabinet's peripherals.
pub mod alu;
pub mod bus;
pub mod debugger;
pub mod i8080;
pub mod invaders;
pub mod z80;
