use vstd::prelude::*;

use crate::errors::IoErrorKind;

verus! {

/// What one call of `Write::write` on the remaining bytes gave back.
#[derive(Clone, Copy, Debug, PartialEq, Eq, Structural)]
pub enum WriteOutcome {
    /// The writer accepted this many bytes from the front of the remaining data.
    Wrote(usize),
    /// The writer failed with an error of this kind.
    Failed(IoErrorKind),
}

/// What the writer loop does after a write.
#[derive(Clone, Copy, Debug, PartialEq, Eq, Structural)]
pub enum WriteStep {
    /// Bytes remain, or the write was interrupted: write again from `pending`.
    Continue,
    /// Every byte has been accepted: the whole write succeeded.
    Finished,
    /// The writer accepted nothing: fail with a `WriteZero` error.
    WriteZero,
    /// The writer failed: fail with the error it gave.
    Failed,
}

/// The step that a write outcome leads to, with the number of bytes accepted
/// so far afterwards, for data of `len` bytes of which `done` were accepted.
pub open spec fn write_step(len: nat, done: nat, outcome: WriteOutcome) -> (nat, WriteStep) {
    match outcome {
        WriteOutcome::Wrote(n) => {
            if n == 0 {
                (done, WriteStep::WriteZero)
            } else if done + n == len {
                (len, WriteStep::Finished)
            } else {
                ((done + n) as nat, WriteStep::Continue)
            }
        },
        WriteOutcome::Failed(kind) => {
            if kind == IoErrorKind::Interrupted {
                (done, WriteStep::Continue)
            } else {
                (done, WriteStep::Failed)
            }
        },
    }
}

/// Progress of writing a whole buffer through a writer that may accept it in
/// pieces: how long the data is and how many bytes from its front were
/// accepted.
pub struct WriteAll {
    total: usize,
    written: usize,
}

impl WriteAll {
    #[verifier::type_invariant]
    spec fn inv(self) -> bool {
        self.written <= self.total
    }

    /// Length of the data to write.
    pub closed spec fn len(self) -> nat {
        self.total as nat
    }

    /// Number of bytes from the front of the data that the writer accepted.
    pub closed spec fn done(self) -> nat {
        self.written as nat
    }

    /// Starts writing data of `len` bytes, none accepted yet.
    pub fn new(len: usize) -> (w: Self)
        ensures
            w.len() == len,
            w.done() == 0,
    {
        WriteAll { total: len, written: 0 }
    }

    /// The offset from which the remaining bytes are to be written, or `None`
    /// once every byte was accepted.
    pub fn pending(&self) -> (r: Option<usize>)
        ensures
            self.done() <= self.len(),
            r == (if self.done() < self.len() {
                Some(self.done() as usize)
            } else {
                None::<usize>
            }),
    {
        proof {
            use_type_invariant(self);
        }
        if self.written < self.total {
            Some(self.written)
        } else {
            None
        }
    }

    /// Takes in the outcome of writing the bytes from `pending` on, and says
    /// what to do next.
    pub fn on_write(&mut self, outcome: WriteOutcome) -> (step: WriteStep)
        requires
            old(self).done() < old(self).len(),
            outcome matches WriteOutcome::Wrote(n) ==> n <= old(self).len() - old(self).done(),
        ensures
            final(self).len() == old(self).len(),
            (final(self).done(), step) == write_step(old(self).len(), old(self).done(), outcome),
    {
        proof {
            use_type_invariant(&*self);
        }
        match outcome {
            WriteOutcome::Wrote(n) => {
                if n == 0 {
                    WriteStep::WriteZero
                } else {
                    self.written = self.written + n;
                    if self.written == self.total {
                        WriteStep::Finished
                    } else {
                        WriteStep::Continue
                    }
                }
            },
            WriteOutcome::Failed(kind) => {
                match kind {
                    IoErrorKind::Interrupted => WriteStep::Continue,
                    _ => WriteStep::Failed,
                }
            },
        }
    }
}


/// The sum of a sequence of byte counts.
pub open spec fn total_of(pieces: Seq<usize>) -> nat
    decreases pieces.len(),
{
    if pieces.len() == 0 {
        0
    } else {
        total_of(pieces.drop_last()) + pieces.last() as nat
    }
}

proof fn lemma_total_of_append(a: Seq<usize>, b: Seq<usize>)
    ensures
        total_of(a + b) == total_of(a) + total_of(b),
    decreases b.len(),
{
    if b.len() == 0 {
        assert(a + b =~= a);
    } else {
        lemma_total_of_append(a, b.drop_last());
        assert((a + b).drop_last() =~= a + b.drop_last());
    }
}

proof fn lemma_total_of_positive(pieces: Seq<usize>)
    requires
        pieces.len() > 0,
        forall|i: int| 0 <= i < pieces.len() ==> pieces[i] > 0,
    ensures
        total_of(pieces) > 0,
{
}

/// Data that the writer accepts in positive pieces summing to its length is
/// written piece after piece: the write of piece `j` starts right after the
/// pieces before it, and the whole write finishes at the last piece and not
/// before.
pub proof fn lemma_write_in_pieces(len: nat, pieces: Seq<usize>, j: int)
    requires
        forall|i: int| 0 <= i < pieces.len() ==> pieces[i] > 0,
        total_of(pieces) == len,
        0 <= j < pieces.len(),
    ensures
        total_of(pieces.take(j)) < len,
        pieces[j] <= len - total_of(pieces.take(j)),
        write_step(len, total_of(pieces.take(j)), WriteOutcome::Wrote(pieces[j])) == (
            total_of(pieces.take(j + 1)),
            if j + 1 == pieces.len() {
                WriteStep::Finished
            } else {
                WriteStep::Continue
            },
        ),
{
    let before = pieces.take(j);
    let upto = pieces.take(j + 1);
    let after = pieces.skip(j + 1);
    assert(upto.drop_last() =~= before);
    assert(total_of(upto) == total_of(before) + pieces[j]);
    assert(pieces =~= upto + after);
    lemma_total_of_append(upto, after);
    if j + 1 < pieces.len() {
        lemma_total_of_positive(after);
    } else {
        assert(after.len() == 0);
    }
}

} // verus!
