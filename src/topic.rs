//! One incarnation of a named topic: the send handle of its channel, and
//! the receive handle until a listener takes it.
use crate::channel::{drain_of, open_channel, send_on, share_receiver, share_sender};
use crate::error::PubSubError;
use crate::message::Message;
use crossbeam::channel::{IntoIter, Receiver, SendError, Sender};
use vstd::prelude::*;

verus! {

/// What a topic incarnation is, abstractly: whether its receive handle was
/// handed out, and the history of the bodies successfully sent on its
/// channel, oldest first. The history keeps a body after a listener has
/// consumed its message.
pub ghost struct TopicView {
    pub drained: bool,
    pub sent: Seq<Seq<char>>,
}

/// The state of a newly created incarnation.
pub open spec fn fresh_topic() -> TopicView {
    TopicView { drained: false, sent: Seq::empty() }
}

/// What a send on a topic's channel means to its caller: success, or
/// `SendFailed` when the channel had no receive handle left.
pub fn send_outcome(sent: Result<(), SendError<Message>>) -> (r: Result<(), PubSubError>)
    ensures
        r is Ok <==> sent is Ok,
        r is Err ==> r == Err::<(), PubSubError>(PubSubError::SendFailed),
{
    match sent {
        Ok(()) => Ok(()),
        Err(_) => Err(PubSubError::SendFailed),
    }
}

/// A send handle and (until a listener takes it) a receive handle on one
/// channel. Dropping the topic releases its send handle, which closes the
/// channel once no other send handle is left.
pub struct Topic {
    sender: Sender<Message>,
    receiver: Option<Receiver<Message>>,
    sent: Ghost<Seq<Seq<char>>>,
}

impl View for Topic {
    type V = TopicView;

    closed spec fn view(&self) -> TopicView {
        TopicView { drained: self.receiver is None, sent: self.sent@ }
    }
}

impl Topic {
    /// A topic over a channel of its own, freshly opened: both of its
    /// handles are ends of that one channel.
    pub fn create() -> (r: Topic)
        ensures
            r@ == fresh_topic(),
    {
        let (sender, receiver) = open_channel();
        Topic { sender, receiver: Some(receiver), sent: Ghost(Seq::empty()) }
    }

    /// A topic over the channel whose two ends are given; the caller is
    /// trusted to hand in the two ends of one channel.
    pub fn new(sender: &Sender<Message>, receiver: &Receiver<Message>) -> (r: Topic)
        ensures
            r@ == fresh_topic(),
    {
        Topic {
            sender: share_sender(sender),
            receiver: Some(share_receiver(receiver)),
            sent: Ghost(Seq::empty()),
        }
    }

    /// Enqueues a message with the given body. On success the body is
    /// recorded as sent; otherwise nothing changes.
    pub fn send_message(&mut self, body: &str) -> (r: Result<(), PubSubError>)
        ensures
            r is Ok ==> final(self)@ == (TopicView {
                sent: old(self)@.sent.push(body@),
                ..old(self)@
            }),
            r is Err ==> r == Err::<(), PubSubError>(PubSubError::SendFailed)
                && final(self)@ == old(self)@,
    {
        let r = send_outcome(send_on(&self.sender, Message::new(body)));
        if r.is_ok() {
            self.sent = Ghost(self.sent@.push(body@));
        }
        r
    }

    /// Hands out the receive side as the blocking sequence of this
    /// incarnation's messages. This succeeds once per incarnation: after
    /// that the topic keeps only its send handle.
    pub fn listen(&mut self) -> (r: Option<IntoIter<Message>>)
        ensures
            r is Some <==> !old(self)@.drained,
            final(self)@ == (TopicView { drained: true, ..old(self)@ }),
    {
        match self.receiver.take() {
            Some(receiver) => Some(drain_of(receiver)),
            None => None,
        }
    }
}

} // verus!
