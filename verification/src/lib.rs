//! Installation and upgrade of toolchains at a target path.
//!
//! The crate decides; its host acts. Every public state machine here is a
//! function from the state so far and the host's last answer to the next
//! request, so that the order of operations, the handling of failures and
//! the classification of the outcome are fixed by verified code, whatever
//! the host's file system and network turn out to do.

pub mod dispatch;
pub mod driver;
pub mod guarantees;
pub mod installer;
pub mod method;
pub mod outcome;
pub mod protocol;
pub mod toolchain;
pub mod uninstall;
