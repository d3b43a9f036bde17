//! Boot and fault containment core of a freestanding kernel.
//!
//! The core takes control at processor reset, brings the statically declared
//! memory sections into their initial state, establishes the first execution
//! context, hands over to the main routine, and guarantees that every
//! unrecoverable condition ends in a well-defined halt. Everything is modelled
//! on plain values, so that each rule of the boot sequence is proved;
//! register writes and the final spin are left to the caller.

pub mod region;
pub mod section_init;
pub mod halt;
pub mod context;
pub mod fault;
pub mod dispatch;
