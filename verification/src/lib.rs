//! A pluggable input/output abstraction for console-style programs.
//!
//! Call sites perform I/O through a capability set (the [`Io`] trait) rather
//! than through hard-coded process-wide streams, so a program can substitute
//! a test double (capturing buffers) for the real console without changing
//! call-site logic. The implicit operations (`print`, `println`, `flush`,
//! `eprintln`, `read`, `prompt`) address the host process's standard streams,
//! and all but `read` treat stream failure as fatal; the explicit operations
//! (`write`, `writeln`) and the free helpers ([`read_aux`], [`prompt_aux`])
//! work against caller-supplied [`Sink`] and [`Source`] capabilities and
//! return recoverable failures instead.

pub mod dispatch;
pub mod failure;
pub mod io;
pub mod sink;
pub mod source;
pub mod text;

pub use failure::IoFailure;
pub use io::DefaultIo;
pub use io::Io;
pub use io::prompt_aux;
pub use io::read_aux;
pub use sink::BufferSink;
pub use sink::FailingSink;
pub use sink::Sink;
pub use source::BufferSource;
pub use source::FailingSource;
pub use source::Source;
