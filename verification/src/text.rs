//! Text handling shared by the I/O operations: line termination and decoding
//! of drained input bytes into text.

use vstd::prelude::*;

verus! {

use vstd::string::StringExecFns;
use vstd::utf8::decode_utf8;
use vstd::utf8::valid_utf8;

use crate::failure::IoFailure;

/// `text` followed by exactly one line terminator.
pub open spec fn terminated(text: Seq<char>) -> Seq<char> {
    text.push('\n')
}

/// For text without an embedded line terminator, the terminated line is
/// exactly the text followed by one line terminator: it is one character
/// longer, it ends in the terminator, and no terminator stands anywhere else.
pub proof fn lemma_terminated_appends_exactly_one(text: Seq<char>)
    requires
        forall|i: int| 0 <= i < text.len() ==> text[i] != '\n',
    ensures
        terminated(text).len() == text.len() + 1,
        terminated(text)[text.len() as int] == '\n',
        forall|i: int|
            0 <= i < text.len() ==> terminated(text)[i] == text[i] && terminated(text)[i] != '\n',
{
}

/// Append one line terminator to `text`.
pub fn with_terminator(text: &str) -> (r: String)
    ensures
        r@ == terminated(text@),
{
    let mut line: String = text.to_owned();
    line.append("\n");
    proof {
        reveal_strlit("\n");
        assert(line@ =~= terminated(text@));
    }
    line
}

/// Relies on `String::from_utf8`: it returns the decoded string exactly when
/// the bytes are a valid UTF-8 encoding, and reports an error otherwise.
#[verifier::external_body]
fn from_utf8(bytes: Vec<u8>) -> (r: Option<String>)
    ensures
        r is Some <==> valid_utf8(bytes@),
        r matches Some(s) ==> s@ == decode_utf8(bytes@),
{
    match String::from_utf8(bytes) {
        Ok(s) => Some(s),
        Err(_) => None,
    }
}

/// Decode bytes drained from an input source into text; bytes that are not
/// valid text are a recoverable failure.
pub fn decode_input(bytes: Vec<u8>) -> (r: Result<String, IoFailure>)
    ensures
        r is Ok <==> valid_utf8(bytes@),
        r matches Ok(s) ==> s@ == decode_utf8(bytes@),
{
    match from_utf8(bytes) {
        Some(s) => Ok(s),
        None => Err(IoFailure),
    }
}

} // verus!
