use vstd::prelude::*;

use crate::errors::IoErrorKind;

verus! {

/// The byte that ends a line on the pipe.
pub const NEWLINE: u8 = 10u8;

/// What one call of `BufRead::read_until(NEWLINE, buf)` gave back.
#[derive(Clone, Copy, Debug, PartialEq, Eq, Structural)]
pub enum ReadUntilOutcome {
    /// This many bytes were appended to the buffer; zero means end of input.
    Read(usize),
    /// The read failed with an error of this kind.
    Failed(IoErrorKind),
}

/// What the spinning line reader does after a `read_until`.
#[derive(Clone, Copy, Debug, PartialEq, Eq, Structural)]
pub enum SpinReadStep {
    /// Nothing is available yet: yield the thread and read again.
    Retry,
    /// The input ended before anything was read: fail with `UnexpectedEof`.
    UnexpectedEof,
    /// The read failed: fail with the error it gave.
    Failed,
    /// The buffer now holds the line, its last byte (the delimiter) removed.
    Line,
}

/// The step that a `read_until` outcome leads to.
pub open spec fn spin_read_step_spec(outcome: ReadUntilOutcome) -> SpinReadStep {
    match outcome {
        ReadUntilOutcome::Read(n) => if n == 0 {
            SpinReadStep::UnexpectedEof
        } else {
            SpinReadStep::Line
        },
        ReadUntilOutcome::Failed(kind) => if kind == IoErrorKind::WouldBlock {
            SpinReadStep::Retry
        } else {
            SpinReadStep::Failed
        },
    }
}

/// A buffer with its last byte removed, if it has one.
pub open spec fn drop_delimiter(buf: Seq<u8>) -> Seq<u8> {
    if buf.len() > 0 {
        buf.drop_last()
    } else {
        buf
    }
}

/// Decides what follows a `read_until` into `buf`; on a completed line it
/// removes the last byte of `buf`: the newline that `read_until` stopped at,
/// or, where the input ended without a newline, the line's own last byte.
pub fn spin_read_step(buf: &mut Vec<u8>, outcome: ReadUntilOutcome) -> (step: SpinReadStep)
    ensures
        step == spin_read_step_spec(outcome),
        final(buf)@ == (if step == SpinReadStep::Line {
            drop_delimiter(old(buf)@)
        } else {
            old(buf)@
        }),
{
    match outcome {
        ReadUntilOutcome::Read(n) => {
            if n == 0 {
                SpinReadStep::UnexpectedEof
            } else {
                buf.pop();
                SpinReadStep::Line
            }
        },
        ReadUntilOutcome::Failed(kind) => {
            match kind {
                IoErrorKind::WouldBlock => SpinReadStep::Retry,
                _ => SpinReadStep::Failed,
            }
        },
    }
}

/// Reading a line and its newline gives back the line.
pub proof fn lemma_line_without_newline(line: Seq<u8>)
    ensures
        drop_delimiter(line.push(NEWLINE)) == line,
{
    assert(line.push(NEWLINE).drop_last() =~= line);
}

/// Where reading a line ends, starting from the bytes `buf`, after the
/// `read_until` calls in `calls`, each given as the bytes it appended and what
/// it returned: after each call `spin_read_step` decides, and reading goes on
/// only while it says `Retry`.
pub open spec fn spin_read_run(buf: Seq<u8>, calls: Seq<(Seq<u8>, ReadUntilOutcome)>) -> (SpinReadStep, Seq<u8>)
    decreases calls.len(),
{
    if calls.len() == 0 {
        (SpinReadStep::Retry, buf)
    } else {
        let b = buf + calls[0].0;
        let step = spin_read_step_spec(calls[0].1);
        if step == SpinReadStep::Retry {
            spin_read_run(b, calls.drop_first())
        } else {
            (step, if step == SpinReadStep::Line { drop_delimiter(b) } else { b })
        }
    }
}

/// All the bytes that the calls appended, in order.
pub open spec fn appended(calls: Seq<(Seq<u8>, ReadUntilOutcome)>) -> Seq<u8>
    decreases calls.len(),
{
    if calls.len() == 0 {
        Seq::empty()
    } else {
        calls[0].0 + appended(calls.drop_first())
    }
}

/// Calls that would block, any number of times, before one that reads bytes.
pub open spec fn blocks_then_reads(calls: Seq<(Seq<u8>, ReadUntilOutcome)>) -> bool {
    &&& calls.len() > 0
    &&& forall|i: int| 0 <= i < calls.len() - 1 ==> #[trigger] calls[i].1 == ReadUntilOutcome::Failed(IoErrorKind::WouldBlock)
    &&& calls.last().1 matches ReadUntilOutcome::Read(n) && n > 0
}

proof fn lemma_blocking_run(buf: Seq<u8>, calls: Seq<(Seq<u8>, ReadUntilOutcome)>)
    requires
        blocks_then_reads(calls),
    ensures
        spin_read_run(buf, calls) == (SpinReadStep::Line, drop_delimiter(buf + appended(calls))),
    decreases calls.len(),
{
    let rest = calls.drop_first();
    if calls.len() == 1 {
        assert(appended(rest) =~= Seq::<u8>::empty());
        assert(buf + appended(calls) =~= buf + calls[0].0);
    } else {
        assert(calls[0].1 == ReadUntilOutcome::Failed(IoErrorKind::WouldBlock));
        assert forall|i: int| 0 <= i < rest.len() - 1 implies #[trigger] rest[i].1 == ReadUntilOutcome::Failed(IoErrorKind::WouldBlock) by {
            assert(rest[i] == calls[i + 1]);
        }
        assert(rest.last() == calls.last());
        lemma_blocking_run(buf + calls[0].0, rest);
        assert(buf + calls[0].0 + appended(rest) =~= buf + appended(calls));
    }
}

/// A would-block is retried, never returned, and loses no byte: two readers
/// that deliver the same bytes, a line and its newline, one of them also
/// blocking at any points, both give back the line.
pub proof fn lemma_would_block_loses_nothing(
    calls1: Seq<(Seq<u8>, ReadUntilOutcome)>,
    calls2: Seq<(Seq<u8>, ReadUntilOutcome)>,
    line: Seq<u8>,
)
    requires
        blocks_then_reads(calls1),
        blocks_then_reads(calls2),
        appended(calls1) == line.push(NEWLINE),
        appended(calls2) == appended(calls1),
    ensures
        spin_read_run(Seq::empty(), calls1) == (SpinReadStep::Line, line),
        spin_read_run(Seq::empty(), calls2) == (SpinReadStep::Line, line),
{
    lemma_blocking_run(Seq::empty(), calls1);
    lemma_blocking_run(Seq::empty(), calls2);
    assert(Seq::<u8>::empty() + appended(calls1) =~= line.push(NEWLINE));
    assert(Seq::<u8>::empty() + appended(calls2) =~= line.push(NEWLINE));
    lemma_line_without_newline(line);
}

} // verus!
