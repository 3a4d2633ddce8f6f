use crossbeam::channel::{Receiver, Sender};
use mio::{Ready, Registration, SetReadiness};
use vstd::prelude::*;

verus! {

#[verifier::external_type_specification]
#[verifier::external_body]
#[verifier::reject_recursive_types(T)]
pub struct ExSender<T>(crossbeam::channel::Sender<T>);

#[verifier::external_type_specification]
#[verifier::external_body]
#[verifier::reject_recursive_types(T)]
pub struct ExReceiver<T>(crossbeam::channel::Receiver<T>);

#[verifier::external_type_specification]
#[verifier::external_body]
pub struct ExRegistration(mio::Registration);

#[verifier::external_type_specification]
#[verifier::external_body]
pub struct ExSetReadiness(mio::SetReadiness);

#[verifier::external_type_specification]
#[verifier::external_body]
pub struct ExIoError(std::io::Error);

/// The registration whose readiness a readiness handle sets.
pub uninterp spec fn readiness_target(set_readiness: SetReadiness) -> Registration;

/// Calls `mio::Registration::new2`, which builds both handles over one
/// readiness node: the readiness handle sets the readiness of the
/// registration returned with it. Nothing more is stated of the opaque
/// handles.
#[verifier::external_body]
fn new_registration() -> (r: (Registration, SetReadiness))
    ensures
        readiness_target(r.1) == r.0,
{
    Registration::new2()
}

/// Calls `crossbeam::channel::unbounded`: the two ends of a new channel of
/// unbounded capacity. Nothing is stated of the opaque ends.
#[verifier::external_body]
fn unbounded_channel<T>() -> (Sender<T>, Receiver<T>) {
    crossbeam::channel::unbounded()
}

/// Calls `Sender::send`, which for an unbounded channel queues the message
/// without blocking. What the channel then holds is not stated: other
/// handles of the channel may send and receive at the same time.
#[verifier::external_body]
fn channel_send<T>(sender: &Sender<T>, msg: T) {
    sender.send(msg)
}

/// Calls `SetReadiness::set_readiness` with `Ready::readable()`. Whether it
/// succeeds depends on the poll the registration belongs to, so nothing is
/// stated of the result.
#[verifier::external_body]
fn mark_readable(set_readiness: &SetReadiness) -> std::io::Result<()> {
    set_readiness.set_readiness(Ready::readable())
}

/// Calls `Receiver::try_recv`: a message if one is queued, else `None`.
/// Which one comes depends on what other threads sent and received, so
/// nothing more is stated.
#[verifier::external_body]
fn channel_try_recv<T>(receiver: &Receiver<T>) -> Option<T> {
    receiver.try_recv()
}

/// The receiving end of an evented channel: its registration can be
/// registered with a `mio::Poll`, which reports it readable after a send.
#[verifier::reject_recursive_types(T)]
pub struct EventReceiver<T> {
    receiver: Receiver<T>,
    registration: Registration,
}

/// The sending end of an evented channel.
#[verifier::reject_recursive_types(T)]
pub struct EventSender<T> {
    sender: Sender<T>,
    set_readiness: SetReadiness,
}

/// Makes a channel whose receiving end a `mio::Poll` can wait on: the sending
/// end marks readable the very registration that the receiving end hands to
/// a poll.
pub fn evented_channel<T>() -> (r: (EventSender<T>, EventReceiver<T>))
    ensures
        readiness_target(r.0.set_readiness_of()) == r.1.registration_of(),
{
    let (registration, set_readiness) = new_registration();
    let (sender, receiver) = unbounded_channel();
    (EventSender { sender, set_readiness }, EventReceiver { receiver, registration })
}

impl<T> EventSender<T> {
    /// The handle that marks the receiving end readable.
    pub closed spec fn set_readiness_of(self) -> SetReadiness {
        self.set_readiness
    }

    /// Queues `msg` and marks the receiving end readable.
    pub fn send(&self, msg: T) {
        channel_send(&self.sender, msg);
        let _ = mark_readable(&self.set_readiness);
    }
}

impl<T> EventReceiver<T> {
    /// The registration that stands for this receiver with a poll.
    pub closed spec fn registration_of(self) -> Registration {
        self.registration
    }

    /// A queued message, if there is one.
    pub fn try_recv(&self) -> Option<T> {
        channel_try_recv(&self.receiver)
    }

    /// The registration to hand to `mio::Poll::register`, standing for this
    /// receiver.
    pub fn registration(&self) -> (r: &Registration)
        ensures
            *r == self.registration_of(),
    {
        &self.registration
    }
}

} // verus!
