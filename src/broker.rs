//! The broker: a handle on a registry that any number of threads share.
//! Each operation holds the registry's lock only for its own map access,
//! never while a listener waits for messages.
use crate::error::PubSubError;
use crate::message::Message;
use crate::topics::{texts, Topics};
use crossbeam::channel::IntoIter;
use std::sync::Arc;
use vstd::prelude::*;
use vstd::rwlock::{RwLock, RwLockPredicate};

verus! {

/// The invariant that the shared registry keeps between operations.
pub struct TopicsInv;

impl RwLockPredicate<Topics> for TopicsInv {
    open spec fn inv(self, v: Topics) -> bool {
        v.wf()
    }
}

/// The lock-guarded registry that every handle of one broker refers to.
pub type SharedTopics = Arc<RwLock<Topics, TopicsInv>>;

/// Relies on `Arc::clone`: one more counted reference to the same registry.
#[verifier::external_body]
fn share_registry(topics: &SharedTopics) -> (r: SharedTopics)
    ensures
        r == *topics,
{
    Arc::clone(topics)
}

/// A handle on a shared topic registry.
pub struct PubSub {
    topics: SharedTopics,
}

impl PubSub {
    /// The shared registry this handle refers to.
    pub closed spec fn registry(&self) -> SharedTopics {
        self.topics
    }

    /// A handle on an existing shared registry.
    pub fn from(topics: SharedTopics) -> (r: PubSub)
        ensures
            r.registry() == topics,
    {
        PubSub { topics }
    }

    /// The shared registry behind `pubsub`, to build another handle from.
    pub fn clone(pubsub: &PubSub) -> (r: SharedTopics)
        ensures
            r == pubsub.registry(),
    {
        share_registry(&pubsub.topics)
    }
}

/// The operations of a broker. Other threads may change the registry
/// between two calls, so each result holds of the registry as it stood
/// while the call held the lock; `Topics` states each operation exactly.
pub trait PubSubTrait: Sized {
    /// A broker with an empty registry of its own, whose lock keeps the
    /// registry well-formed.
    fn new() -> (r: PubSub)
        ensures
            r.registry().pred() == TopicsInv,
    ;

    /// Registers a fresh incarnation of `topic`, replacing any earlier one.
    fn subscribe(&mut self, topic: &str)
        ensures
            *final(self) == *old(self),
    ;

    /// Removes `topic`, closing its incarnation; nothing if it is absent.
    fn unsubscribe(&mut self, topic: &str)
        ensures
            *final(self) == *old(self),
    ;

    /// Sends `body` to `topic`.
    fn publish(&mut self, topic: &str, body: &str) -> (r: Result<(), PubSubError>)
        ensures
            *final(self) == *old(self),
    ;

    /// A snapshot of the registered topic names, each once.
    fn get_topics(&mut self) -> (r: Vec<String>)
        ensures
            *final(self) == *old(self),
            texts(r@).no_duplicates(),
    ;

    /// Takes the blocking message sequence of `topic`'s incarnation.
    fn listen(&mut self, topic: &str) -> (r: Result<IntoIter<Message>, PubSubError>)
        ensures
            *final(self) == *old(self),
    ;
}

impl PubSubTrait for PubSub {
    fn new() -> (r: PubSub) {
        let topics = Arc::new(RwLock::new(Topics::new(), Ghost(TopicsInv)));
        PubSub { topics }
    }

    fn subscribe(&mut self, topic: &str) {
        let (mut topics, handle) = self.topics.acquire_write();
        topics.subscribe(topic);
        handle.release_write(topics);
    }

    fn unsubscribe(&mut self, topic: &str) {
        let (mut topics, handle) = self.topics.acquire_write();
        topics.unsubscribe(topic);
        handle.release_write(topics);
    }

    fn publish(&mut self, topic: &str, body: &str) -> (r: Result<(), PubSubError>) {
        let (mut topics, handle) = self.topics.acquire_write();
        let r = topics.publish(topic, body);
        handle.release_write(topics);
        r
    }

    fn get_topics(&mut self) -> (r: Vec<String>) {
        let handle = self.topics.acquire_read();
        let names = handle.borrow().names();
        handle.release_read();
        names
    }

    fn listen(&mut self, topic: &str) -> (r: Result<IntoIter<Message>, PubSubError>) {
        let (mut topics, handle) = self.topics.acquire_write();
        let r = topics.listen(topic);
        handle.release_write(topics);
        r
    }
}

} // verus!
