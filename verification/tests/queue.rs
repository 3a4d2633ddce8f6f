use std::time::Duration;

use mio::{Poll, PollOpt, Ready, Registration, Token};
use nextgen2::mio_chan::evented_channel;
use nextgen2::runloop::{EventStream, CLIENT_TOKEN, IDLE_TOKEN, NO_TIMEOUT_MICROS};
use nextgen2::token_heap::TokenHeap;

#[test]
fn heap_pops_greatest_first() {
    let mut h = TokenHeap::new();
    assert!(h.is_empty());
    h.push(3);
    h.push(9);
    h.push(1);
    h.push(9);
    assert_eq!(h.len(), 4);
    assert_eq!(h.pop(), Some(9));
    assert_eq!(h.pop(), Some(9));
    assert_eq!(h.pop(), Some(3));
    assert_eq!(h.pop(), Some(1));
    assert_eq!(h.pop(), None);
    assert!(h.is_empty());
}

#[test]
fn heap_push_after_pop() {
    let mut h = TokenHeap::new();
    h.push(4);
    h.push(2);
    assert_eq!(h.pop(), Some(4));
    h.push(7);
    assert_eq!(h.pop(), Some(7));
    assert_eq!(h.pop(), Some(2));
    assert_eq!(h.pop(), None);
}

#[test]
fn new_stream_is_empty() {
    let mut s = EventStream::new(16);
    assert_eq!(s.ready_len(), 0);
    assert!(!s.has_idle());
    assert_eq!(s.next_if_ready(), None);
    assert_eq!(IDLE_TOKEN, usize::MAX);
    assert_eq!(CLIENT_TOKEN, 1);
    assert_eq!(NO_TIMEOUT_MICROS, 1);
}

#[test]
fn stream_serves_greatest_ready_token() {
    let poll = Poll::new().unwrap();
    let (reg_a, set_a) = Registration::new2();
    let (reg_b, set_b) = Registration::new2();
    let (reg_c, _set_c) = Registration::new2();
    poll.register(&reg_a, Token(2), Ready::readable(), PollOpt::edge()).unwrap();
    poll.register(&reg_b, Token(7), Ready::readable(), PollOpt::edge()).unwrap();
    poll.register(&reg_c, Token(5), Ready::readable(), PollOpt::edge()).unwrap();
    set_a.set_readiness(Ready::readable()).unwrap();
    set_b.set_readiness(Ready::readable()).unwrap();

    let mut s = EventStream::new(16);
    poll.poll(s.events_mut(), Some(Duration::from_millis(200))).unwrap();
    assert_eq!(s.next(), Some(7));
    assert_eq!(s.ready_len(), 1);
    assert!(!s.has_idle());
    // The second poll brings no new event (the registrations are edge-triggered);
    // the queue still holds token 2.
    poll.poll(s.events_mut(), Some(Duration::from_millis(10))).unwrap();
    assert_eq!(s.next(), Some(2));
}

#[test]
fn stream_takes_in_each_polled_event_once() {
    let poll = Poll::new().unwrap();
    let (reg, set) = Registration::new2();
    poll.register(&reg, Token(4), Ready::readable(), PollOpt::edge()).unwrap();
    set.set_readiness(Ready::readable()).unwrap();
    let mut s = EventStream::new(16);
    poll.poll(s.events_mut(), Some(Duration::from_millis(200))).unwrap();
    assert_eq!(s.next(), Some(4));
    assert_eq!(s.next_if_ready(), None);
    assert_eq!(s.ready_len(), 0);
}

#[test]
fn stream_skips_events_that_are_not_readable() {
    let poll = Poll::new().unwrap();
    let (reg, set) = Registration::new2();
    poll.register(&reg, Token(3), Ready::readable() | Ready::writable(), PollOpt::edge()).unwrap();
    set.set_readiness(Ready::writable()).unwrap();
    let mut s = EventStream::new(16);
    poll.poll(s.events_mut(), Some(Duration::from_millis(200))).unwrap();
    s.process_new_events();
    assert_eq!(s.ready_len(), 0);
    assert_eq!(s.next_if_ready(), None);
}

#[test]
fn evented_channel_wakes_poll_and_delivers() {
    let poll = Poll::new().unwrap();
    let (send, recv) = evented_channel::<String>();
    poll.register(recv.registration(), Token(0), Ready::readable(), PollOpt::edge()).unwrap();
    assert_eq!(recv.try_recv(), None);
    send.send("hello".to_string());
    send.send("again".to_string());
    let mut s = EventStream::new(8);
    poll.poll(s.events_mut(), Some(Duration::from_millis(500))).unwrap();
    assert_eq!(s.next(), Some(0));
    assert_eq!(recv.try_recv(), Some("hello".to_string()));
    assert_eq!(recv.try_recv(), Some("again".to_string()));
    assert_eq!(recv.try_recv(), None);
}
