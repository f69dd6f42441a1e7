//! The core of a small interactive shell: splitting a line into a command
//! portion and its output redirections, tokenizing the command portion with
//! quote and escape handling, resolving the leading word to a builtin or an
//! executable on the search path, and deciding which bytes go to which
//! stream.
//!
//! Everything here is a function of plain values. Reading lines, listing
//! directories, spawning processes and writing to files belong to the caller.

pub mod text;
pub mod lexer;
pub mod output;
pub mod parse;
pub mod error;
pub mod shell_commands;
pub mod dispatch;
