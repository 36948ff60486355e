//! A minimal host-driven execution module: a single process-wide unsigned
//! 32-bit counter with five operations, and a diagnostic entry point that
//! hands a fixed message to a host-supplied trace capability.

pub mod counter;
pub mod trace;
