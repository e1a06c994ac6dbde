pub mod clint;
pub mod htif;
pub mod io_access;

pub use clint::Clint;
pub use htif::{HTIFConsole, HTIFPowerDown};
