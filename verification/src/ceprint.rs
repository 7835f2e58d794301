//! Printing a formatted status line to standard error.
//!
//! The error-style twins of the stdout family: same formatting through
//! [`crate::cformat`] and [`crate::cformat_message`], written to standard
//! error; a failed write comes back as an
//! [`OutputError`](crate::OutputError) instead of a panic. The
//! conventional color here is [`DEFAULT_ERROR_COLOR`](crate::DEFAULT_ERROR_COLOR).

use vstd::prelude::*;
use vstd::string::StringExecFns;

use crate::cformat::cformat;
use crate::cformat::cformat_message;
use crate::coloration::Color;
use crate::output::write_stderr;
use crate::output::OutputError;

verus! {

/// Prints the line formatted from `title` and `msg` under `color` to
/// standard error, without a trailing newline.
pub fn ceprint(title: &str, msg: &str, color: &Color) -> (r: Result<(), OutputError>) {
    let line = cformat(title, msg, color);
    write_stderr(line.as_str())
}

/// Prints the line formatted from `title` and `msg` under `color` to
/// standard error, with a trailing newline.
pub fn ceprintln(title: &str, msg: &str, color: &Color) -> (r: Result<(), OutputError>) {
    let mut line = cformat(title, msg, color);
    line.append("\n");
    write_stderr(line.as_str())
}

/// Prints the line formatted from the single string `text` under `color`
/// to standard error, without a trailing newline.
pub fn ceprint_message(text: &str, color: &Color) -> (r: Result<(), OutputError>) {
    let line = cformat_message(text, color);
    write_stderr(line.as_str())
}

/// Prints the line formatted from the single string `text` under `color`
/// to standard error, with a trailing newline.
pub fn ceprintln_message(text: &str, color: &Color) -> (r: Result<(), OutputError>) {
    let mut line = cformat_message(text, color);
    line.append("\n");
    write_stderr(line.as_str())
}

} // verus!
