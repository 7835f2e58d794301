//! Writing a formatted line to the standard streams.

use std::io::Write;

use vstd::prelude::*;

verus! {

/// Error returned when writing a formatted line to an output stream
/// fails.
#[derive(Clone, Copy, Debug, PartialEq, Eq, Structural)]
pub struct OutputError;

/// Relies on the `write!` macro over `std::io::Stdout`: writes the string
/// to standard output. Nothing is promised of the outcome; a failed write
/// comes back as the error.
#[verifier::external_body]
pub(crate) fn write_stdout(s: &str) -> (r: Result<(), OutputError>) {
    match write!(std::io::stdout(), "{}", s) {
        Ok(()) => Ok(()),
        Err(_) => Err(OutputError),
    }
}

/// Relies on the `write!` macro over `std::io::Stderr`: writes the string
/// to standard error. Nothing is promised of the outcome; a failed write
/// comes back as the error.
#[verifier::external_body]
pub(crate) fn write_stderr(s: &str) -> (r: Result<(), OutputError>) {
    match write!(std::io::stderr(), "{}", s) {
        Ok(()) => Ok(()),
        Err(_) => Err(OutputError),
    }
}

} // verus!
