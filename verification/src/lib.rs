//! The logic of a macOS network repair utility.
//!
//! The utility works through the command line tools of the system. This
//! library decides which commands are run and reads what they print; it
//! runs nothing itself. Each operation comes as a command line, a step or
//! a plan to hand to the system, and as a function that turns the outcome
//! into the answer.
//!
//! - [`text`]: the text operations everything else is built on, each with
//!   its mathematical model.
//! - [`command`]: command lines, steps and plans as plain data.
//! - [`admin`]: commands that need administrator privileges.
//! - [`network`]: network services and hardware ports.
//! - [`proxy`]: proxy settings.
//! - [`dns`]: DNS servers and the resolver cache.
//! - [`diagnostics`]: `ping` and the reset of the network stack.

pub mod admin;
pub mod command;
pub mod diagnostics;
pub mod dns;
pub mod network;
pub mod proxy;
pub mod text;
