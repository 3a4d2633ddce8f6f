use std::sync::mpsc;

use nextgen2::rpc::{frame_line, my_fun, send_line, MyWrite, start_scoped, FakeCore, FakeTx, Peer, RpcSender};

#[test]
fn my_fun_counts_to_ten() {
    assert_eq!(my_fun(), (0..10).collect::<Vec<usize>>());
}

#[test]
fn peer_splits_into_its_halves() {
    let peer = Peer { send: 1u8, recv: "in" };
    assert_eq!(peer.split(), (1u8, "in"));
}

#[test]
fn core_keeps_its_sender() {
    assert_eq!(FakeCore::new(FakeTx).send, FakeTx);
    assert_eq!(start_scoped(FakeTx), FakeCore { send: FakeTx });
}

#[test]
fn mpsc_sender_is_an_rpc_sender() {
    let (mut tx, rx) = mpsc::channel::<u32>();
    assert_eq!(RpcSender::send(&mut tx, 5), Ok(()));
    assert_eq!(rx.recv(), Ok(5));
    drop(rx);
    assert_eq!(RpcSender::send(&mut tx, 6), Err(()));
}

#[test]
fn frame_line_appends_a_newline() {
    assert_eq!(frame_line(b"{\"a\":1}".to_vec()), b"{\"a\":1}\n".to_vec());
    assert_eq!(frame_line(Vec::new()), b"\n".to_vec());
}

struct Sink(Vec<u8>, bool);

impl MyWrite for Sink {
    fn write_all(&mut self, buf: &[u8]) -> std::io::Result<()> {
        if self.1 {
            self.0.extend_from_slice(buf);
            Ok(())
        } else {
            Err(std::io::Error::new(std::io::ErrorKind::Other, "closed"))
        }
    }
}

#[test]
fn send_line_writes_text_and_newline() {
    let mut sink = Sink(Vec::new(), true);
    assert_eq!(send_line(&mut sink, Some(b"[1,2]".to_vec())), Ok(()));
    assert_eq!(sink.0, b"[1,2]\n".to_vec());
    assert_eq!(send_line(&mut sink, None), Err(()));
    assert_eq!(sink.0, b"[1,2]\n".to_vec());
    let mut closed = Sink(Vec::new(), false);
    assert_eq!(send_line(&mut closed, Some(b"1".to_vec())), Err(()));
}
