//! A minimal process launcher, as a verified decision core.
//!
//! Launching a command takes three operating-system primitives: creating a
//! second execution context, replacing that context's program image, and
//! waiting in the original context until the new one has terminated. This
//! library holds everything about that sequence that can be decided without
//! touching the operating system:
//!
//! * [`error`]: the single failure value and the mappings into it;
//! * [`command`]: the conversion of textual arguments into the
//!   null-terminated byte strings that image replacement takes;
//! * [`process`]: the plain values that describe what creation and waiting
//!   reported;
//! * [`launcher`]: the state machine that tells a driver which primitive to
//!   invoke next and what each report leads to;
//! * [`cli`]: which words of a command line make up the command, and what
//!   is printed once the launch is over.
//!
//! A driver owns the primitives themselves. It asks the launcher for the
//! pending action, performs it, and hands the report back as an event.

pub mod cli;
pub mod command;
pub mod error;
pub mod launcher;
pub mod process;
