//! The Intel 8080 and 8085 cores, stepped one M-cycle at a time.
pub mod cpu;
pub mod exec;
pub mod laws;
pub mod model;
pub mod opcode;
