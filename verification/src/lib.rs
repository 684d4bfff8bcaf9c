//! Boot-time display driver and lifecycle-event sequencer.
//!
//! The library owns the logic that runs right after the bootloader hands
//! control to the kernel: painting the framebuffer, driving an 80x25 text
//! console with cursor tracking and scroll-on-overflow, and dispatching a
//! closed set of lifecycle events that steer a process-wide running flag.
//! Memory-mapped hardware regions are modelled as owned, bounded cell
//! buffers; the thin unverified harness around the library supplies the
//! real hardware addresses and the terminal halt loop.

pub mod boot;
pub mod console;
pub mod events;
pub mod framebuffer;
pub mod harness;
