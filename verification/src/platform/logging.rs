//! The logging sink: one message per notable event. Logging only observes; it
//! never changes what the processor does.

use std::io::Write;
use vstd::prelude::*;

verus! {

/// A sink for log messages.
pub trait Logger {
    fn log(&mut self, msg: String);
}

/// Writes each message as one line to standard output.
pub struct Stdout {}

/// Hands the message to `writeln!` on `std::io::stdout()`; a failed write is
/// dropped. Nothing is claimed of the output.
#[verifier::external_body]
fn write_line(msg: String) {
    let _ = writeln!(std::io::stdout(), "{}", msg);
}

impl Logger for Stdout {
    fn log(&mut self, msg: String) {
        write_line(msg);
    }
}

/// Drops every message.
pub struct NoLog {}

impl Logger for NoLog {
    fn log(&mut self, msg: String) {
    }
}

} // verus!
