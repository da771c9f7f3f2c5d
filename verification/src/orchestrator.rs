//! The decisions of the set-up stages, as state machines.
//!
//! A stage is carried out by a driver that owns the processes and the file
//! system. The driver asks a machine what to do (`*_action`), does it, and
//! reports how it went (`*_step`). A machine holds no resources and decides
//! nothing but the order of the work: which attempt comes next, when a
//! stage is already satisfied, and with which error it ends.

pub mod bootstrap;
pub mod error;
pub mod extraction;
pub mod install;
pub mod retry;
