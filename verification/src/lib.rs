//! Early-boot core of the Piuma kernel, modelled over an explicit machine
//! state so that every hardware interaction is a recorded, specified event.
//!
//! The library takes the machine from bootloader handoff to a minimally
//! diagnosable running kernel: it enables the floating-point/SIMD execution
//! units, brings up the serial diagnostic channel, reads the loader's
//! request/response records, optionally binds a console to a framebuffer,
//! and on any unrecoverable fault drains diagnostics to the serial channel
//! before halting forever.
//!
//! Raw privileged instructions (port I/O, control-register writes, `hlt`)
//! cannot carry proofs; the platform shell performs them and mirrors the
//! event model defined here.

pub mod console;
pub mod cpu;
pub mod fault;
pub mod kernel;
pub mod machine;
pub mod protocol;
pub mod serial;

pub use machine::Event;
pub use machine::Machine;
