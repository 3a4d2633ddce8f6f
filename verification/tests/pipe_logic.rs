use nextgen2::errors::IoErrorKind;
use nextgen2::open::{should_retry_open, NO_READER_OS_ERROR};
use nextgen2::read::{spin_read_step, ReadUntilOutcome, SpinReadStep, NEWLINE};
use nextgen2::write::{WriteAll, WriteOutcome, WriteStep};

#[test]
fn write_all_in_one_piece_finishes() {
    let mut w = WriteAll::new(5);
    assert_eq!(w.pending(), Some(0));
    assert_eq!(w.on_write(WriteOutcome::Wrote(5)), WriteStep::Finished);
    assert_eq!(w.pending(), None);
}

#[test]
fn write_all_in_pieces_starts_each_write_after_the_last() {
    let mut w = WriteAll::new(10);
    assert_eq!(w.on_write(WriteOutcome::Wrote(3)), WriteStep::Continue);
    assert_eq!(w.pending(), Some(3));
    assert_eq!(w.on_write(WriteOutcome::Wrote(4)), WriteStep::Continue);
    assert_eq!(w.pending(), Some(7));
    assert_eq!(w.on_write(WriteOutcome::Wrote(3)), WriteStep::Finished);
    assert_eq!(w.pending(), None);
}

#[test]
fn write_all_of_nothing_writes_nothing() {
    let w = WriteAll::new(0);
    assert_eq!(w.pending(), None);
}

#[test]
fn write_all_zero_write_is_an_error() {
    let mut w = WriteAll::new(4);
    assert_eq!(w.on_write(WriteOutcome::Wrote(1)), WriteStep::Continue);
    assert_eq!(w.on_write(WriteOutcome::Wrote(0)), WriteStep::WriteZero);
    assert_eq!(w.pending(), Some(1));
}

#[test]
fn write_all_retries_when_interrupted() {
    let mut w = WriteAll::new(4);
    assert_eq!(w.on_write(WriteOutcome::Failed(IoErrorKind::Interrupted)), WriteStep::Continue);
    assert_eq!(w.pending(), Some(0));
    assert_eq!(w.on_write(WriteOutcome::Wrote(4)), WriteStep::Finished);
}

#[test]
fn write_all_passes_other_errors_on() {
    let mut w = WriteAll::new(4);
    assert_eq!(w.on_write(WriteOutcome::Failed(IoErrorKind::WouldBlock)), WriteStep::Failed);
    assert_eq!(w.pending(), Some(0));
    let mut w = WriteAll::new(4);
    assert_eq!(w.on_write(WriteOutcome::Failed(IoErrorKind::Other)), WriteStep::Failed);
}

#[test]
fn spin_read_strips_the_newline() {
    let mut buf = b"hello\n".to_vec();
    assert_eq!(spin_read_step(&mut buf, ReadUntilOutcome::Read(6)), SpinReadStep::Line);
    assert_eq!(buf, b"hello".to_vec());
}

#[test]
fn spin_read_line_read_in_two_calls() {
    let mut buf = b"he".to_vec();
    assert_eq!(spin_read_step(&mut buf, ReadUntilOutcome::Failed(IoErrorKind::WouldBlock)), SpinReadStep::Retry);
    assert_eq!(buf, b"he".to_vec());
    buf.extend_from_slice(b"llo");
    buf.push(NEWLINE);
    assert_eq!(spin_read_step(&mut buf, ReadUntilOutcome::Read(4)), SpinReadStep::Line);
    assert_eq!(buf, b"hello".to_vec());
}

#[test]
fn spin_read_drops_last_byte_at_end_of_input() {
    let mut buf = b"abc".to_vec();
    assert_eq!(spin_read_step(&mut buf, ReadUntilOutcome::Read(3)), SpinReadStep::Line);
    assert_eq!(buf, b"ab".to_vec());
}

#[test]
fn spin_read_zero_bytes_is_unexpected_eof() {
    let mut buf = Vec::new();
    assert_eq!(spin_read_step(&mut buf, ReadUntilOutcome::Read(0)), SpinReadStep::UnexpectedEof);
    assert!(buf.is_empty());
}

#[test]
fn spin_read_passes_other_errors_on() {
    let mut buf = b"x".to_vec();
    assert_eq!(spin_read_step(&mut buf, ReadUntilOutcome::Failed(IoErrorKind::Interrupted)), SpinReadStep::Failed);
    assert_eq!(spin_read_step(&mut buf, ReadUntilOutcome::Failed(IoErrorKind::Other)), SpinReadStep::Failed);
    assert_eq!(buf, b"x".to_vec());
}

#[test]
fn open_retries_while_pipe_missing_or_unread() {
    assert!(should_retry_open(IoErrorKind::NotFound, Some(2)));
    assert!(should_retry_open(IoErrorKind::Other, Some(6)));
    assert_eq!(NO_READER_OS_ERROR, 6);
    assert!(!should_retry_open(IoErrorKind::Other, Some(13)));
    assert!(!should_retry_open(IoErrorKind::Other, None));
    assert!(!should_retry_open(IoErrorKind::WouldBlock, None));
}
