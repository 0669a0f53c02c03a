use iocap::dispatch;
use iocap::io::{prompt_aux, read_aux, DefaultIo, Io};
use iocap::sink::{BufferSink, FailingSink, Sink};
use iocap::source::{BufferSource, FailingSource};
use iocap::text::with_terminator;
use iocap::IoFailure;

#[test]
fn read_aux_returns_preloaded_text() {
    let reader = BufferSource::from_text("hello");
    assert_eq!(read_aux(reader), Ok(String::from("hello")));
}

#[test]
fn read_aux_decodes_multibyte_text() {
    // "hé" is three bytes but two characters: the decode is a real
    // conversion, not a copy of the input bytes.
    let reader = BufferSource::new(vec![0x68, 0xc3, 0xa9]);
    assert_eq!(read_aux(reader), Ok(String::from("h\u{e9}")));
}

#[test]
fn read_aux_rejects_invalid_text_bytes() {
    let reader = BufferSource::new(vec![0xff, 0xfe, 0xfd]);
    assert_eq!(read_aux(reader), Err(IoFailure));
}

#[test]
fn read_aux_empty_input_is_success_not_failure() {
    let reader = BufferSource::new(Vec::new());
    assert_eq!(read_aux(reader), Ok(String::new()));
}

#[test]
fn read_aux_reports_a_failed_read() {
    assert_eq!(read_aux(FailingSource), Err(IoFailure));
}

#[test]
fn prompt_aux_writes_question_and_returns_answer() {
    let reader = BufferSource::from_text("42");
    let mut writer = BufferSink::new();
    let answer = prompt_aux(reader, &mut writer, "Enter n: ");
    assert_eq!(writer.as_str(), "Enter n: ");
    assert_eq!(answer, "42");
}

#[test]
fn prompt_aux_keeps_trailing_terminators() {
    let reader = BufferSource::from_text("42\n");
    let mut writer = BufferSink::new();
    let answer = prompt_aux(reader, &mut writer, "n? ");
    assert_eq!(answer, "42\n");
}

#[test]
fn write_leaves_sink_equal_to_exactly_the_text() {
    let mut sink = BufferSink::new();
    assert_eq!(DefaultIo::write(&mut sink, "T"), Ok(()));
    assert_eq!(sink.as_str(), "T");
}

#[test]
fn writeln_leaves_sink_equal_to_text_plus_terminator() {
    let mut sink = BufferSink::new();
    assert_eq!(DefaultIo::writeln(&mut sink, "T"), Ok(()));
    assert_eq!(sink.as_str(), "T\n");
}

#[test]
fn writes_accumulate_in_order() {
    let mut sink = BufferSink::new();
    assert_eq!(DefaultIo::write(&mut sink, "a"), Ok(()));
    assert_eq!(DefaultIo::writeln(&mut sink, "b"), Ok(()));
    assert_eq!(DefaultIo::write(&mut sink, "c"), Ok(()));
    assert_eq!(sink.as_str(), "ab\nc");
}

#[test]
fn write_rejected_by_a_broken_sink_is_recoverable() {
    let mut sink = FailingSink;
    assert_eq!(DefaultIo::write(&mut sink, "T"), Err(IoFailure));
}

#[test]
fn writeln_rejected_by_a_broken_sink_is_recoverable() {
    let mut sink = FailingSink;
    assert_eq!(DefaultIo::writeln(&mut sink, "T"), Err(IoFailure));
}

#[test]
fn sink_flush_is_idempotent() {
    let mut sink = BufferSink::new();
    assert_eq!(DefaultIo::write(&mut sink, "once"), Ok(()));
    assert_eq!(sink.flush(), Ok(()));
    let after_first_flush = String::from(sink.as_str());
    assert_eq!(sink.flush(), Ok(()));
    assert_eq!(sink.flush(), Ok(()));
    assert_eq!(sink.as_str(), after_first_flush);
    assert_eq!(sink.as_str(), "once");
}

#[test]
fn with_terminator_appends_exactly_one_terminator() {
    assert_eq!(with_terminator("hi"), "hi\n");
    assert_eq!(with_terminator(""), "\n");
    assert_eq!(with_terminator("a\n"), "a\n\n");
}

#[test]
fn dispatch_forwards_to_the_explicit_sink() {
    let mut sink = BufferSink::new();
    assert_eq!(dispatch::display_to::<DefaultIo, _>(&mut sink, "x"), Ok(()));
    assert_eq!(dispatch::display_line_to::<DefaultIo, _>(&mut sink, "y"), Ok(()));
    assert_eq!(sink.as_str(), "xy\n");
}

#[test]
fn dispatch_reports_a_rejected_write() {
    let mut sink = FailingSink;
    assert_eq!(dispatch::display_to::<DefaultIo, _>(&mut sink, "x"), Err(IoFailure));
    assert_eq!(
        dispatch::display_line_to::<DefaultIo, _>(&mut sink, "y"),
        Err(IoFailure)
    );
}

struct InheritingIo;

impl Io for InheritingIo {}

#[test]
fn alternate_implementations_inherit_the_default_bodies() {
    let mut sink = BufferSink::new();
    assert_eq!(InheritingIo::write(&mut sink, "T"), Ok(()));
    assert_eq!(InheritingIo::writeln(&mut sink, "U"), Ok(()));
    assert_eq!(sink.as_str(), "TU\n");
}

#[test]
fn process_wide_print_family_runs() {
    DefaultIo::print("");
    DefaultIo::println("");
    DefaultIo::eprintln("");
    DefaultIo::flush();
    DefaultIo::flush();
    dispatch::display::<DefaultIo>("");
    dispatch::display_line::<DefaultIo>("");
    dispatch::edisplay::<DefaultIo>("");
}
