//! A library for watching a command: it plans the command's run and the
//! notifications that report its exit, and checks and edits the configuration
//! of the transports that carry them.
use vstd::prelude::*;

pub mod cli;
pub mod config;
pub mod email;
pub mod log;
pub mod process;
pub mod text;
pub mod transport;
pub mod utils;

verus! {
}
