//! The Zilog Z80 core, stepped one T-state at a time.
pub mod cpu;
pub mod laws;
pub mod model;
pub mod opcode;
