//! The capability set: the eight console-style operations with their shared
//! default bodies, the default process-wide provider, and the two reusable
//! helper routines.

use std::io::Write;

use vstd::prelude::*;

verus! {

use vstd::pervasive::unreached;
use vstd::utf8::decode_utf8;
use vstd::utf8::valid_utf8;

use crate::failure::IoFailure;
use crate::sink::Sink;
use crate::source::BufferSource;
use crate::source::Source;
use crate::text::decode_input;
use crate::text::terminated;
use crate::text::with_terminator;

/// Drain `reader` to end-of-input and decode the bytes as text.
///
/// Empty input (immediate end-of-input) is success with an empty string. A
/// failed read and bytes that are not valid text are the same recoverable
/// failure.
pub fn read_aux<R: Source>(reader: R) -> (r: Result<String, IoFailure>)
    ensures
        r matches Ok(text) ==> valid_utf8(reader.contents()) && text@ == decode_utf8(
            reader.contents(),
        ),
        reader.ready() ==> (r is Ok <==> valid_utf8(reader.contents())),
        reader.ready() && reader.contents().len() == 0 ==> (r matches Ok(text) && text@.len()
            == 0),
{
    match reader.read_to_end() {
        Ok(bytes) => decode_input(bytes),
        Err(failure) => Err(failure),
    }
}

/// Write `question` into `writer`, flush it, then drain `reader` to
/// end-of-input and return the text read verbatim, with no trimming of
/// trailing terminators.
///
/// Every sub-step of a prompt treats failure as fatal, so the preconditions
/// rule failure out: the writer must be ready, and the reader must be ready
/// and hold valid text.
pub fn prompt_aux<R: Source, W: Sink>(reader: R, writer: &mut W, question: &str) -> (r: String)
    requires
        old(writer).ready(),
        reader.ready(),
        valid_utf8(reader.contents()),
    ensures
        final(writer).contents() == old(writer).contents() + question@,
        final(writer).ready(),
        r@ == decode_utf8(reader.contents()),
{
    if writer.write_str(question).is_err() {
        return unreached();
    }
    if writer.flush().is_err() {
        return unreached();
    }
    match read_aux(reader) {
        Ok(text) => text,
        Err(_) => unreached(),
    }
}

/// Relies on the `write!` macro over `std::io::Stdout`: it appends exactly
/// the given text to the process-wide output stream. Failure of that stream
/// is fatal, so a failed write aborts instead of returning.
#[verifier::external_body]
fn stdout_write(text: &str) {
    write!(std::io::stdout(), "{}", text).expect("Unable to write");
}

/// Relies on `std::io::Write::flush` on `std::io::Stdout`: it forces delivery
/// of buffered output and appends nothing to the stream. Failure of the
/// process-wide stream is fatal, so a failed flush aborts instead of
/// returning.
#[verifier::external_body]
fn stdout_flush() {
    std::io::stdout().flush().expect("Unable to flush");
}

/// Relies on the `write!` macro over `std::io::Stderr`: it appends exactly
/// the given text to the process-wide error stream. Failure of that stream is
/// fatal, so a failed write aborts instead of returning.
#[verifier::external_body]
fn stderr_write(text: &str) {
    write!(std::io::stderr(), "{}", text).expect("Unable to write");
}

/// Relies on `std::io::Read::read_to_end` on the locked process-wide input
/// stream: it drains the stream to end-of-input and yields the bytes read; a
/// failed read is reported as a recoverable failure.
#[verifier::external_body]
fn stdin_read_to_end() -> Result<Vec<u8>, IoFailure> {
    let mut bytes = Vec::new();
    match std::io::Read::read_to_end(&mut std::io::stdin().lock(), &mut bytes) {
        Ok(_) => Ok(bytes),
        Err(_) => Err(IoFailure),
    }
}

/// Relies on `std::io::Read::read_to_string` on the locked process-wide input
/// stream: it drains the stream to end-of-input and yields its text. This is
/// the prompt path, where failure is fatal: a failed read and invalid text
/// both abort instead of returning.
#[verifier::external_body]
fn stdin_read_text() -> String {
    let mut text = String::new();
    std::io::Read::read_to_string(&mut std::io::stdin().lock(), &mut text).expect(
        "Unable to read",
    );
    text
}

/// The capability set: print, println, flush, write, writeln, eprintln, read
/// and prompt, with default bodies.
///
/// The implicit operations (`print`, `println`, `flush`, `eprintln`, `read`,
/// `prompt`) address the process-wide streams, where failure is fatal except
/// for `read`; the explicit operations (`write`, `writeln`) touch only the
/// caller-supplied sink and return a recoverable result. An implementation
/// holds no instance state: it overrides any subset of the operations and
/// inherits the rest.
pub trait Io {
    /// Write `output` to the process-wide output stream, with no trailing
    /// terminator. Stream failure is fatal.
    fn print(output: &str) {
        stdout_write(output);
    }

    /// Force delivery of buffered process-wide output, appending nothing to
    /// the stream. Stream failure is fatal.
    fn flush() {
        stdout_flush();
    }

    /// Write exactly `output` followed by one line terminator to the
    /// process-wide output stream. Stream failure is fatal.
    fn println(output: &str) {
        let line = with_terminator(output);
        stdout_write(line.as_str());
    }

    /// Write `output` into `writer`, with no terminator. A rejected write is
    /// a recoverable failure that leaves the sink unchanged.
    fn write<W: Sink>(writer: &mut W, output: &str) -> (r: Result<(), IoFailure>)
        ensures
            r is Ok ==> final(writer).contents() == old(writer).contents() + output@,
            r is Err ==> final(writer).contents() == old(writer).contents(),
            old(writer).ready() ==> r is Ok && final(writer).ready(),
    {
        writer.write_str(output)
    }

    /// Write `output` followed by one line terminator into `writer`. A
    /// rejected write is a recoverable failure that leaves the sink
    /// unchanged.
    fn writeln<W: Sink>(writer: &mut W, output: &str) -> (r: Result<(), IoFailure>)
        ensures
            r is Ok ==> final(writer).contents() == old(writer).contents() + terminated(
                output@,
            ),
            r is Err ==> final(writer).contents() == old(writer).contents(),
            old(writer).ready() ==> r is Ok && final(writer).ready(),
    {
        let line = with_terminator(output);
        writer.write_str(line.as_str())
    }

    /// Write exactly `output` followed by one line terminator to the
    /// process-wide error stream. Stream failure is fatal.
    fn eprintln(output: &str) {
        let line = with_terminator(output);
        stderr_write(line.as_str());
    }

    /// Drain the process-wide input stream to end-of-input. A failed read and
    /// bytes that are not valid text are the same recoverable failure.
    fn read() -> Result<String, IoFailure> {
        match stdin_read_to_end() {
            Ok(bytes) => read_aux(BufferSource::new(bytes)),
            Err(failure) => Err(failure),
        }
    }

    /// Write `question` to the process-wide output stream, flush it, then
    /// drain the process-wide input stream to end-of-input and return the
    /// text read. Every failure on this path is fatal.
    fn prompt(question: &str) -> String {
        stdout_write(question);
        stdout_flush();
        stdin_read_text()
    }
}

/// The default provider: a stateless implementation that inherits every
/// default body, routing the implicit operations to the process-wide streams
/// and the explicit operations to the caller-supplied sink.
pub struct DefaultIo;

impl Io for DefaultIo {
}

} // verus!
