//! The topic registry: at most one live incarnation per topic name.
use crate::error::PubSubError;
use crate::message::Message;
use crate::topic::{fresh_topic, Topic, TopicView};
use crossbeam::channel::IntoIter;
use vstd::prelude::*;

verus! {

/// The registry after a successful publish of `body` to `name`.
pub open spec fn after_publish(
    m: Map<Seq<char>, TopicView>,
    name: Seq<char>,
    body: Seq<char>,
) -> Map<Seq<char>, TopicView> {
    if m.contains_key(name) {
        m.insert(name, TopicView { sent: m[name].sent.push(body), ..m[name] })
    } else {
        m
    }
}

/// Whether a listener can still take the incarnation registered under `name`.
pub open spec fn can_listen(m: Map<Seq<char>, TopicView>, name: Seq<char>) -> bool {
    m.contains_key(name) && !m[name].drained
}

/// The registry after `listen(name)`.
pub open spec fn after_listen(
    m: Map<Seq<char>, TopicView>,
    name: Seq<char>,
) -> Map<Seq<char>, TopicView> {
    if m.contains_key(name) {
        m.insert(name, TopicView { drained: true, ..m[name] })
    } else {
        m
    }
}

/// The texts of a sequence of strings.
pub open spec fn texts(v: Seq<String>) -> Seq<Seq<char>> {
    v.map_values(|s: String| s@)
}

/// A mapping from topic name to its current incarnation.
pub struct Topics {
    entries: Vec<(String, Topic)>,
    model: Ghost<Map<Seq<char>, TopicView>>,
}

impl View for Topics {
    type V = Map<Seq<char>, TopicView>;

    closed spec fn view(&self) -> Map<Seq<char>, TopicView> {
        self.model@
    }
}

impl Topics {
    spec fn key(&self, i: int) -> Seq<char> {
        self.entries@[i].0@
    }

    /// The entries hold each name once, and agree with the abstract map.
    pub closed spec fn wf(&self) -> bool {
        &&& forall|i: int|
            0 <= i < self.entries@.len() ==> #[trigger] self.model@.contains_key(self.key(i))
                && self.model@[self.key(i)] == self.entries@[i].1@
        &&& forall|k: Seq<char>|
            #[trigger] self.model@.contains_key(k) ==> exists|i: int|
                0 <= i < self.entries@.len() && self.key(i) == k
        &&& forall|i: int, j: int|
            0 <= i < self.entries@.len() && 0 <= j < self.entries@.len() && i != j
                ==> self.key(i) != self.key(j)
    }

    /// An empty registry.
    pub fn new() -> (r: Topics)
        ensures
            r.wf(),
            r@ == Map::<Seq<char>, TopicView>::empty(),
    {
        Topics { entries: Vec::new(), model: Ghost(Map::empty()) }
    }

    /// The position of `name` among the entries, if it is registered.
    fn find(&self, name: &String) -> (r: Option<usize>)
        requires
            self.wf(),
        ensures
            r matches Some(i) ==> i < self.entries@.len() && self.key(i as int) == name@,
            r is None ==> !self@.contains_key(name@),
    {
        let mut i: usize = 0;
        while i < self.entries.len()
            invariant
                i <= self.entries@.len(),
                forall|j: int| 0 <= j < i ==> self.key(j) != name@,
            decreases self.entries@.len() - i,
        {
            if self.entries[i].0 == *name {
                return Some(i);
            }
            i = i + 1;
        }
        None
    }

    /// Registers `topic` under `name`, dropping the incarnation it replaces.
    pub fn insert(&mut self, name: &str, topic: Topic)
        requires
            old(self).wf(),
        ensures
            final(self).wf(),
            final(self)@ == old(self)@.insert(name@, topic@),
    {
        let key = name.to_owned();
        let ghost tv = topic@;
        match self.find(&key) {
            Some(i) => {
                let _replaced = self.entries.remove(i);
                self.entries.insert(i, (key, topic));
                self.model = Ghost(self.model@.insert(name@, tv));
                proof {
                    assert(self.key(i as int) == name@);
                    assert forall|j: int| 0 <= j < self.entries@.len() && j != i implies
                        self.entries@[j] == old(self).entries@[j] by {}
                    assert forall|k: Seq<char>| #[trigger] self.model@.contains_key(k) implies exists|j: int|
                        0 <= j < self.entries@.len() && self.key(j) == k by {
                        if k != name@ {
                            let j = choose|j: int| 0 <= j < old(self).entries@.len() && old(self).key(j) == k;
                            assert(self.key(j) == k);
                        } else {
                            assert(self.key(i as int) == k);
                        }
                    }
                    assert forall|a: int, b: int|
                        0 <= a < self.entries@.len() && 0 <= b < self.entries@.len() && a != b
                            implies self.key(a) != self.key(b) by {
                        if a != i && b != i {
                            assert(old(self).key(a) != old(self).key(b));
                        } else if a != i {
                            assert(old(self).key(a) != old(self).key(i as int));
                        } else {
                            assert(old(self).key(b) != old(self).key(i as int));
                        }
                    }
                    assert forall|j: int| 0 <= j < self.entries@.len() implies
                        #[trigger] self.model@.contains_key(self.key(j))
                            && self.model@[self.key(j)] == self.entries@[j].1@ by {
                        if self.key(j) != name@ {
                            assert(old(self).model@.contains_key(old(self).key(j)));
                        }
                    }
                    assert(self.wf());
                }
            },
            None => {
                self.entries.push((key, topic));
                self.model = Ghost(self.model@.insert(name@, tv));
                proof {
                    let n = self.entries@.len() - 1;
                    assert(self.key(n) == name@);
                    assert forall|k: Seq<char>| #[trigger] self.model@.contains_key(k) implies exists|j: int|
                        0 <= j < self.entries@.len() && self.key(j) == k by {
                        if k != name@ {
                            let j = choose|j: int| 0 <= j < old(self).entries@.len() && old(self).key(j) == k;
                            assert(self.key(j) == k);
                        }
                    }
                    assert forall|a: int, b: int|
                        0 <= a < self.entries@.len() && 0 <= b < self.entries@.len() && a != b
                            implies self.key(a) != self.key(b) by {
                        if a < n && b < n {
                            assert(old(self).key(a) != old(self).key(b));
                        } else if a < n {
                            assert(old(self).model@.contains_key(old(self).key(a)));
                        } else {
                            assert(old(self).model@.contains_key(old(self).key(b)));
                        }
                    }
                    assert forall|j: int| 0 <= j < self.entries@.len() implies
                        #[trigger] self.model@.contains_key(self.key(j))
                            && self.model@[self.key(j)] == self.entries@[j].1@ by {
                        if self.key(j) != name@ {
                            assert(old(self).model@.contains_key(old(self).key(j)));
                        }
                    }
                    assert(self.wf());
                }
            },
        }
    }

    /// Removes the incarnation registered under `name` and hands it back.
    pub fn take(&mut self, name: &str) -> (r: Option<Topic>)
        requires
            old(self).wf(),
        ensures
            final(self).wf(),
            final(self)@ == old(self)@.remove(name@),
            r is Some <==> old(self)@.contains_key(name@),
            r matches Some(t) ==> t@ == old(self)@[name@],
    {
        let key = name.to_owned();
        match self.find(&key) {
            Some(i) => {
                let (_name, topic) = self.entries.remove(i);
                self.model = Ghost(self.model@.remove(name@));
                proof {
                    let len = old(self).entries@.len();
                    assert forall|j: int| 0 <= j < self.entries@.len() implies
                        self.entries@[j] == old(self).entries@[if j < i { j } else { j + 1 }] by {}
                    assert forall|j: int| 0 <= j < self.entries@.len() implies
                        #[trigger] self.model@.contains_key(self.key(j))
                            && self.model@[self.key(j)] == self.entries@[j].1@ by {
                        let oj = if j < i { j } else { j + 1 };
                        assert(old(self).key(oj) != old(self).key(i as int));
                        assert(old(self).model@.contains_key(old(self).key(oj)));
                    }
                    assert forall|k: Seq<char>| #[trigger] self.model@.contains_key(k) implies exists|j: int|
                        0 <= j < self.entries@.len() && self.key(j) == k by {
                        assert(old(self).model@.contains_key(k));
                        let oj = choose|j: int| 0 <= j < len && old(self).key(j) == k;
                        assert(oj != i);
                        if oj < i {
                            assert(self.key(oj) == k);
                        } else {
                            assert(self.key(oj - 1) == k);
                        }
                    }
                    assert forall|a: int, b: int|
                        0 <= a < self.entries@.len() && 0 <= b < self.entries@.len() && a != b
                            implies self.key(a) != self.key(b) by {
                        let oa = if a < i { a } else { a + 1 };
                        let ob = if b < i { b } else { b + 1 };
                        assert(old(self).key(oa) != old(self).key(ob));
                    }
                }
                Some(topic)
            },
            None => {
                proof {
                    assert(self.model@ =~= old(self).model@.remove(name@));
                }
                None
            },
        }
    }

    /// Creates a fresh incarnation for `name`: a new channel, registered in
    /// place of any earlier one, whose undelivered messages are dropped.
    pub fn subscribe(&mut self, name: &str)
        requires
            old(self).wf(),
        ensures
            final(self).wf(),
            final(self)@ == old(self)@.insert(name@, fresh_topic()),
    {
        self.insert(name, Topic::create());
    }

    /// Removes `name` and closes its incarnation; a name that is not
    /// registered is left alone.
    pub fn unsubscribe(&mut self, name: &str)
        requires
            old(self).wf(),
        ensures
            final(self).wf(),
            final(self)@ == old(self)@.remove(name@),
    {
        let _closed = self.take(name);
    }

    /// Sends `body` to the incarnation registered under `name`.
    pub fn publish(&mut self, name: &str, body: &str) -> (r: Result<(), PubSubError>)
        requires
            old(self).wf(),
        ensures
            final(self).wf(),
            (r == Err::<(), PubSubError>(PubSubError::TopicNotFound)) <==> !old(self)@.contains_key(
                name@,
            ),
            r is Ok ==> final(self)@ == after_publish(old(self)@, name@, body@),
            r is Err ==> final(self)@ == old(self)@,
    {
        match self.take(name) {
            None => Err(PubSubError::TopicNotFound),
            Some(mut topic) => {
                let r = topic.send_message(body);
                self.insert(name, topic);
                assert(final(self)@ =~= if r is Ok {
                    after_publish(old(self)@, name@, body@)
                } else {
                    old(self)@
                });
                r
            },
        }
    }

    /// Hands out the blocking sequence of the messages of the incarnation
    /// registered under `name`. The incarnation stays registered, so that
    /// publishing to it goes on, but it cannot be listened to again.
    pub fn listen(&mut self, name: &str) -> (r: Result<IntoIter<Message>, PubSubError>)
        requires
            old(self).wf(),
        ensures
            final(self).wf(),
            r is Ok <==> can_listen(old(self)@, name@),
            r matches Err(e) ==> e == PubSubError::TopicNotFound,
            final(self)@ == after_listen(old(self)@, name@),
    {
        match self.take(name) {
            None => Err(PubSubError::TopicNotFound),
            Some(mut topic) => {
                let r = topic.listen();
                self.insert(name, topic);
                assert(final(self)@ =~= after_listen(old(self)@, name@));
                match r {
                    Some(messages) => Ok(messages),
                    None => Err(PubSubError::TopicNotFound),
                }
            },
        }
    }

    /// A snapshot of the registered names, each once.
    pub fn names(&self) -> (r: Vec<String>)
        requires
            self.wf(),
        ensures
            texts(r@).to_set() == self@.dom(),
            texts(r@).no_duplicates(),
    {
        let mut out: Vec<String> = Vec::new();
        let mut i: usize = 0;
        while i < self.entries.len()
            invariant
                i <= self.entries@.len(),
                out@.len() == i,
                forall|j: int| 0 <= j < i ==> #[trigger] out@[j]@ == self.key(j),
            decreases self.entries@.len() - i,
        {
            out.push(self.entries[i].0.clone());
            i = i + 1;
        }
        proof {
            let t = texts(out@);
            assert forall|j: int| 0 <= j < t.len() implies t[j] == self.key(j) by {}
            assert forall|k: Seq<char>| t.to_set().contains(k) <==> self@.dom().contains(k) by {
                if t.to_set().contains(k) {
                    let j = choose|j: int| 0 <= j < t.len() && t[j] == k;
                    assert(self.model@.contains_key(self.key(j)));
                }
                if self@.dom().contains(k) {
                    assert(self.model@.contains_key(k));
                    let j = choose|j: int| 0 <= j < self.entries@.len() && self.key(j) == k;
                    assert(t[j] == k);
                }
            }
            assert(t.to_set() =~= self@.dom());
        }
        out
    }
}

} // verus!
