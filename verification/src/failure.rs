//! The failure value returned by the recoverable I/O operations.

use vstd::prelude::*;

verus! {

/// A recoverable I/O failure.
///
/// The explicit-sink operations (`write`, `writeln`) and the standalone read
/// path (`read`, `read_aux`) return this value when the caller-supplied sink
/// rejects a write, the source cannot be drained, or the drained bytes are not
/// valid text. Failures of the process-wide streams on the implicit path
/// (`print`, `println`, `flush`, `eprintln`, and every sub-step of `prompt`)
/// are fatal instead: they abort the call chain and never surface as a value.
#[derive(Clone, Copy, Debug, PartialEq, Eq, Structural)]
pub struct IoFailure;

} // verus!
