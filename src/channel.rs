//! The delivery channel: crossbeam's unbounded multi-producer channel,
//! carrying messages from publishers to the one consumer of a topic.
use crate::message::Message;
use crossbeam::channel::{IntoIter, Receiver, SendError, Sender};
use vstd::prelude::*;

verus! {

#[verifier::external_type_specification]
#[verifier::external_body]
#[verifier::reject_recursive_types(T)]
pub struct ExSender<T>(Sender<T>);

#[verifier::external_type_specification]
#[verifier::external_body]
#[verifier::reject_recursive_types(T)]
pub struct ExReceiver<T>(Receiver<T>);

#[verifier::external_type_specification]
#[verifier::external_body]
#[verifier::reject_recursive_types(T)]
pub struct ExIntoIter<T>(IntoIter<T>);

#[verifier::external_type_specification]
#[verifier::external_body]
#[verifier::reject_recursive_types(T)]
pub struct ExSendError<T>(SendError<T>);

/// Relies on crossbeam::channel::unbounded: a fresh, empty channel with
/// unlimited capacity, given as its send and receive ends.
#[verifier::external_body]
pub(crate) fn open_channel() -> (Sender<Message>, Receiver<Message>) {
    crossbeam::channel::unbounded()
}

/// Relies on `Clone for Sender`: one more send handle on the same channel.
#[verifier::external_body]
pub(crate) fn share_sender(s: &Sender<Message>) -> Sender<Message> {
    s.clone()
}

/// Relies on `Clone for Receiver`: one more receive handle on the same channel.
#[verifier::external_body]
pub(crate) fn share_receiver(r: &Receiver<Message>) -> Receiver<Message> {
    r.clone()
}

/// Relies on Sender::send: enqueues the message, or fails when no receive
/// handle of the channel is left.
#[verifier::external_body]
pub(crate) fn send_on(s: &Sender<Message>, m: Message) -> Result<(), SendError<Message>> {
    s.send(m)
}

/// Relies on `IntoIterator for Receiver`: the blocking sequence of the
/// channel's messages, which ends once every send handle is gone and the
/// channel is empty.
#[verifier::external_body]
pub(crate) fn drain_of(r: Receiver<Message>) -> IntoIter<Message> {
    r.into_iter()
}

} // verus!
