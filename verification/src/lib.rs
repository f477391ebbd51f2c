//! Commands of a desktop shell that hosts one embedded browser element.
//!
//! The shell's window shows a container, and inside it at most one embedded
//! browser element. The front end drives that element with four commands:
//! navigate to an address, reload, go back, go forward. A command has no
//! typed access to the element. It builds a script, has the window evaluate
//! it in its document, and reports whether the evaluation went through.
//!
//! - [`script`]: the texts of the scripts.
//! - [`markup`]: how marked-up text is read, for stating what a script holds.
//! - [`content`]: what the scripts' texts hold.
//! - [`outcome`]: what a command reports after the evaluation.
//! - [`handler`]: the commands themselves, over the function that evaluates.

pub mod content;
pub mod handler;
pub mod markup;
pub mod outcome;
pub mod script;
