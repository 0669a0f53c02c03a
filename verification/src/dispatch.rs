//! Dispatch sugar: convenience entry points over a chosen capability-set
//! implementation.
//!
//! Each entry point takes already-formatted text and forwards it to the
//! matching operation of the capability set `I`, adding no logic of its own
//! and passing the operation's result through unchanged where there is one.

use vstd::prelude::*;

verus! {

use crate::failure::IoFailure;
use crate::io::Io;
use crate::sink::Sink;
use crate::text::terminated;

/// Forward `text` to `I::print`: the process-wide output stream, no
/// terminator.
pub fn display<I: Io>(text: &str) {
    I::print(text);
}

/// Forward `text` to `I::println`: the process-wide output stream, with one
/// line terminator appended.
pub fn display_line<I: Io>(text: &str) {
    I::println(text);
}

/// Forward `text` to `I::write`: the given sink, no terminator.
pub fn display_to<I: Io, W: Sink>(writer: &mut W, text: &str) -> (r: Result<(), IoFailure>)
    ensures
        r is Ok ==> final(writer).contents() == old(writer).contents() + text@,
        r is Err ==> final(writer).contents() == old(writer).contents(),
        old(writer).ready() ==> r is Ok && final(writer).ready(),
{
    I::write(writer, text)
}

/// Forward `text` to `I::writeln`: the given sink, with one line terminator
/// appended.
pub fn display_line_to<I: Io, W: Sink>(writer: &mut W, text: &str) -> (r: Result<(), IoFailure>)
    ensures
        r is Ok ==> final(writer).contents() == old(writer).contents() + terminated(text@),
        r is Err ==> final(writer).contents() == old(writer).contents(),
        old(writer).ready() ==> r is Ok && final(writer).ready(),
{
    I::writeln(writer, text)
}

/// Forward `text` to `I::eprintln`: the process-wide error stream, with one
/// line terminator appended.
pub fn edisplay<I: Io>(text: &str) {
    I::eprintln(text);
}

/// Forward `question` to `I::prompt` and return the text read.
pub fn prompt<I: Io>(question: &str) -> String {
    I::prompt(question)
}

} // verus!
