use vstd::prelude::*;

use std::io::Write;

use crate::read::{spin_read_run, ReadUntilOutcome, SpinReadStep, NEWLINE};

verus! {

/// The sending half of a connection to a peer, whatever transport carries it.
pub trait RpcSender<M>: Send {
    fn send(&mut self, msg: M) -> Result<(), ()>;
}

/// The receiving half of a connection to a peer.
pub trait RpcReceiver<T>: Send {
    fn recv(&self) -> Result<T, ()>;
}

/// A byte sink that takes whole buffers.
pub trait MyWrite {
    /// Whether the sink keeps a record, `taken`, of the bytes that its writes
    /// accepted; a sink keeps none unless it says so.
    open spec fn keeps_record() -> bool {
        false
    }

    /// The bytes the sink has accepted so far, in order, where it keeps a
    /// record of them.
    open spec fn taken(&self) -> Seq<u8> {
        Seq::empty()
    }

    /// Writes the whole of `buf`; a sink that keeps a record has, after a
    /// successful write, accepted exactly `buf` after what it held.
    fn write_all(&mut self, buf: &[u8]) -> (r: std::io::Result<()>)
        ensures
            Self::keeps_record() ==> (r is Ok ==> final(self).taken() == old(self).taken() + buf@),
    ;
}

#[verifier::external_type_specification]
#[verifier::external_body]
pub struct ExStdout(std::io::Stdout);

#[verifier::external_type_specification]
#[verifier::external_body]
#[verifier::reject_recursive_types(T)]
pub struct ExMpscSender<T>(std::sync::mpsc::Sender<T>);

/// Calls `std::io::Write::write_all` on standard output; whether it succeeds
/// depends on the process's environment, so nothing is stated.
#[verifier::external_body]
fn stdout_write_all(out: &mut std::io::Stdout, buf: &[u8]) -> std::io::Result<()> {
    Write::write_all(out, buf)
}

/// What reaches standard output is the process's environment: the library
/// keeps no record of it.
impl MyWrite for std::io::Stdout {
    fn write_all(&mut self, buf: &[u8]) -> std::io::Result<()> {
        stdout_write_all(self, buf)
    }
}

/// Calls `std::sync::mpsc::Sender::send`, mapping its error, which says the
/// receiver is gone, to `()`. Whether the receiver is gone depends on other
/// threads, so nothing is stated.
#[verifier::external_body]
fn mpsc_send<M>(sender: &std::sync::mpsc::Sender<M>, msg: M) -> Result<(), ()> {
    sender.send(msg).map_err(|_e| ())
}

impl<M: Send> RpcSender<M> for std::sync::mpsc::Sender<M> {
    fn send(&mut self, msg: M) -> Result<(), ()> {
        mpsc_send(self, msg)
    }
}

/// A connection to a peer: a sending half `S` (an `RpcSender` of the
/// outgoing messages) and a receiving half `R` (an `RpcReceiver` of the
/// incoming ones).
pub struct Peer<S, R> {
    pub send: S,
    pub recv: R,
}

impl<S, R> Peer<S, R> {
    /// Parts the connection into its sending and its receiving half.
    pub fn split(self) -> (r: (S, R))
        ensures
            r == (self.send, self.recv),
    {
        let Peer { send, recv } = self;
        (send, recv)
    }
}

/// The numbers from 0 up to, but not including, 10, in order.
pub fn my_fun() -> (v: Vec<usize>)
    ensures
        v@ == Seq::new(10, |i: int| i as usize),
{
    let mut v: Vec<usize> = Vec::new();
    let mut i: usize = 0;
    while i < 10
        invariant
            0 <= i <= 10,
            v@ == Seq::new(i as nat, |k: int| k as usize),
        decreases 10 - i,
    {
        v.push(i);
        i = i + 1;
        assert(v@ =~= Seq::new(i as nat, |k: int| k as usize));
    }
    v
}

/// One message line for a byte sink: the serialized message and a newline
/// after it.
pub fn frame_line(text: Vec<u8>) -> (line: Vec<u8>)
    ensures
        line@ == text@.push(NEWLINE),
{
    let mut line = text;
    line.push(NEWLINE);
    line
}

/// Sends one message line, the serialized text and a newline after it, to
/// `sink` in a single write; `None` stands for a message that could not be
/// serialized, and is not sent. Any failure comes back as `Err(())`.
pub fn send_line<W: MyWrite>(sink: &mut W, text: Option<Vec<u8>>) -> (r: Result<(), ()>)
    ensures
        text is None ==> r == Err::<(), ()>(()) && *final(sink) == *old(sink),
        text matches Some(t) ==> (W::keeps_record() ==> (r is Ok ==> final(sink).taken()
            == old(sink).taken() + t@.push(NEWLINE))),
{
    match text {
        None => Err(()),
        Some(text) => {
            let line = frame_line(text);
            match sink.write_all(line.as_slice()) {
                Ok(()) => Ok(()),
                Err(_) => Err(()),
            }
        },
    }
}

/// A line that `send_line` hands to a sink, read at the other end of the
/// pipe in one `read_until`, gives back the message text it was made from.
pub proof fn lemma_sent_line_reads_back(text: Seq<u8>, n: usize)
    requires
        n > 0,
    ensures
        spin_read_run(Seq::empty(), seq![(text.push(NEWLINE), ReadUntilOutcome::Read(n))])
            == (SpinReadStep::Line, text),
{
    let calls = seq![(text.push(NEWLINE), ReadUntilOutcome::Read(n))];
    assert(calls.len() == 1);
    assert(calls.drop_first() =~= Seq::<(Seq<u8>, ReadUntilOutcome)>::empty());
    assert(Seq::<u8>::empty() + calls[0].0 =~= text.push(NEWLINE));
    assert(text.push(NEWLINE).drop_last() =~= text);
}

/// A stand-in for the sending end that a core is given.
#[derive(Clone, Copy, Debug, PartialEq, Eq, Structural)]
pub struct FakeTx;

/// A stand-in for the core of the editor.
#[derive(Clone, Copy, Debug, PartialEq, Eq, Structural)]
pub struct FakeCore {
    pub send: FakeTx,
}

impl FakeCore {
    /// A core that sends through `tx`.
    pub fn new(tx: FakeTx) -> (core: Self)
        ensures
            core.send == tx,
    {
        FakeCore { send: tx }
    }
}

/// Calls `crossbeam::scope` with a body that spawns nothing, so that it
/// returns at once.
#[verifier::external_body]
fn run_empty_scope() {
    crossbeam::scope(|_scope| {})
}

/// The start of a runloop scoped to the current thread. No runloop is there to
/// run yet: it opens a thread scope that spawns nothing, closes it again, and
/// builds a core that sends through `tx`.
pub fn start_scoped(tx: FakeTx) -> (core: FakeCore)
    ensures
        core.send == tx,
{
    run_empty_scope();
    FakeCore::new(tx)
}

} // verus!
