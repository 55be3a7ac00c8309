//! Board description of imix, a SAM4L platform.
//!
//! The crate decides what each pin does, which actions bring the chip, the drivers and the radio up
//! and in which order, who listens to whom, which memory goes where, what the kernel is started
//! with, and which driver answers which system call. Left to the firmware image are the calls
//! that perform the actions, the memory itself, how the power rails of the submodules are
//! switched, and what the drivers and the kernel do once they run.

pub mod board;
pub mod boot;
pub mod laws;
pub mod parts;
pub mod pins;
pub mod platform;
mod schedule;
