//! Boot-loader logic for the Terminus RISC-V simulator: the CLINT and HTIF
//! device protocols, the SBI timer and IPI back ends, and the machine-mode
//! trap handler's decisions.
//!
//! Register and memory accesses that need the hardware are left to the
//! firmware around this crate; every decision about what to access, with
//! which value, and what to do next, is made and proved here.

pub mod hal;
pub mod sbi;
pub mod sys;

pub mod trap;
