//! Reports a laptop battery's charge state: classifies the kernel's status and
//! capacity texts, renders a one-line summary with a minute-precision local
//! timestamp, and interprets the command line that chooses between a single
//! poll and a continuous loop.
pub mod classify;
pub mod config;
pub mod num;
pub mod present;
pub mod sched;
pub mod text;
