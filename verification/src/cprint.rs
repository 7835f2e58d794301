//! Printing a formatted status line to standard output.
//!
//! Each function builds its line with [`crate::cformat`] or
//! [`crate::cformat_message`], whose contracts pin the text down, and then
//! hands it to standard output in one write; a failed write comes back as
//! an [`OutputError`](crate::OutputError) instead of a panic.

use vstd::prelude::*;
use vstd::string::StringExecFns;

use crate::cformat::cformat;
use crate::cformat::cformat_message;
use crate::coloration::Color;
use crate::output::write_stdout;
use crate::output::OutputError;

verus! {

/// Prints the line formatted from `title` and `msg` under `color` to
/// standard output, without a trailing newline.
pub fn cprint(title: &str, msg: &str, color: &Color) -> (r: Result<(), OutputError>) {
    let line = cformat(title, msg, color);
    write_stdout(line.as_str())
}

/// Prints the line formatted from `title` and `msg` under `color` to
/// standard output, with a trailing newline.
pub fn cprintln(title: &str, msg: &str, color: &Color) -> (r: Result<(), OutputError>) {
    let mut line = cformat(title, msg, color);
    line.append("\n");
    write_stdout(line.as_str())
}

/// Prints the line formatted from the single string `text` under `color`
/// to standard output, without a trailing newline.
pub fn cprint_message(text: &str, color: &Color) -> (r: Result<(), OutputError>) {
    let line = cformat_message(text, color);
    write_stdout(line.as_str())
}

/// Prints the line formatted from the single string `text` under `color`
/// to standard output, with a trailing newline.
pub fn cprintln_message(text: &str, color: &Color) -> (r: Result<(), OutputError>) {
    let mut line = cformat_message(text, color);
    line.append("\n");
    write_stdout(line.as_str())
}

} // verus!
