use crossbeam::channel::unbounded;
use pubsub::{send_outcome, Message, PubSub, PubSubError, PubSubTrait, Topic, Topics};
use std::time::Duration;

fn next_body(it: &mut crossbeam::channel::IntoIter<Message>) -> Option<String> {
    it.next().map(|m| m.to_text())
}

#[test]
fn message_keeps_its_body() {
    let m = Message::new("hello");
    assert_eq!(m.body(), "hello");
    assert_eq!(m.to_text(), "hello".to_string());
    assert_eq!(Message::new("").body(), "");
}

#[test]
fn publish_then_listen_keeps_order() {
    let mut broker = PubSub::new();
    broker.subscribe("n");
    assert_eq!(broker.publish("n", "b1"), Ok(()));
    assert_eq!(broker.publish("n", "b2"), Ok(()));
    let mut it = broker.listen("n").unwrap();
    assert_eq!(next_body(&mut it), Some("b1".to_string()));
    assert_eq!(next_body(&mut it), Some("b2".to_string()));
    broker.unsubscribe("n");
    assert_eq!(next_body(&mut it), None);
}

#[test]
fn publish_to_unknown_topic_fails() {
    let mut broker = PubSub::new();
    assert_eq!(broker.publish("never", "x"), Err(PubSubError::TopicNotFound));
    broker.subscribe("gone");
    assert_eq!(broker.publish("gone", "x"), Ok(()));
    broker.unsubscribe("gone");
    assert_eq!(broker.publish("gone", "x"), Err(PubSubError::TopicNotFound));
    assert!(broker.listen("gone").is_err());
}

#[test]
fn resubscribe_discards_pending_messages() {
    let mut broker = PubSub::new();
    broker.subscribe("n");
    assert_eq!(broker.publish("n", "x"), Ok(()));
    broker.subscribe("n");
    assert_eq!(broker.publish("n", "y"), Ok(()));
    let mut it = broker.listen("n").unwrap();
    assert_eq!(next_body(&mut it), Some("y".to_string()));
    broker.unsubscribe("n");
    assert_eq!(next_body(&mut it), None);
}

#[test]
fn list_topics_after_unsubscribe() {
    let mut broker = PubSub::new();
    broker.subscribe("a");
    broker.subscribe("b");
    broker.unsubscribe("a");
    assert_eq!(broker.get_topics(), vec!["b".to_string()]);
}

#[test]
fn list_topics_names_each_once() {
    let mut broker = PubSub::new();
    assert!(broker.get_topics().is_empty());
    broker.subscribe("a");
    broker.subscribe("b");
    broker.subscribe("a");
    let mut names = broker.get_topics();
    names.sort();
    assert_eq!(names, vec!["a".to_string(), "b".to_string()]);
}

#[test]
fn unsubscribe_of_absent_topic_is_a_no_op() {
    let mut broker = PubSub::new();
    broker.subscribe("a");
    broker.unsubscribe("missing");
    assert_eq!(broker.get_topics(), vec!["a".to_string()]);
}

#[test]
fn concurrent_publishers_deliver_every_message_once() {
    let k: usize = 8;
    let mut broker = PubSub::new();
    broker.subscribe("t");
    crossbeam::scope(|s| {
        for i in 0..k {
            let mut handle = PubSub::from(PubSub::clone(&broker));
            s.spawn(move |_| {
                assert_eq!(handle.publish("t", &format!("tag{}", i)), Ok(()));
            });
        }
    })
    .unwrap();
    let mut it = broker.listen("t").unwrap();
    broker.unsubscribe("t");
    let mut got: Vec<String> = it.by_ref().map(|m| m.to_text()).collect();
    got.sort();
    let mut want: Vec<String> = (0..k).map(|i| format!("tag{}", i)).collect();
    want.sort();
    assert_eq!(got, want);
}

#[test]
fn second_listen_fails() {
    let mut broker = PubSub::new();
    broker.subscribe("n");
    assert_eq!(broker.publish("n", "only"), Ok(()));
    let mut it = broker.listen("n").unwrap();
    assert_eq!(next_body(&mut it), Some("only".to_string()));
    assert_eq!(broker.listen("n").err(), Some(PubSubError::TopicNotFound));
    broker.subscribe("n");
    assert!(broker.listen("n").is_ok());
}

#[test]
fn listener_thread_receives_then_waits_for_close() {
    let mut broker = PubSub::new();
    broker.subscribe("t");
    let (seen_tx, seen_rx) = unbounded::<String>();
    let (done_tx, done_rx) = unbounded::<Vec<String>>();
    let (ready_tx, ready_rx) = unbounded::<()>();
    crossbeam::scope(|s| {
        let mut listener = PubSub::from(PubSub::clone(&broker));
        s.spawn(move |_| {
            let messages = listener.listen("t").unwrap();
            ready_tx.send(()).unwrap();
            let mut all = Vec::new();
            for m in messages {
                seen_tx.send(m.to_text()).unwrap();
                all.push(m.to_text());
            }
            done_tx.send(all).unwrap();
        });
        let mut publisher = PubSub::from(PubSub::clone(&broker));
        s.spawn(move |_| {
            assert_eq!(publisher.publish("t", "hello"), Ok(()));
        });
        ready_rx.recv().unwrap();
        assert_eq!(seen_rx.recv().unwrap(), "hello");
        assert!(done_rx.recv_timeout(Duration::from_millis(200)).is_err());
        broker.unsubscribe("t");
        assert_eq!(done_rx.recv().unwrap(), vec!["hello".to_string()]);
    })
    .unwrap();
}

#[test]
fn publish_fails_once_the_listener_is_gone() {
    let mut broker = PubSub::new();
    broker.subscribe("t");
    let it = broker.listen("t").unwrap();
    drop(it);
    assert_eq!(broker.publish("t", "lost"), Err(PubSubError::SendFailed));
    assert_eq!(broker.get_topics(), vec!["t".to_string()]);
}

#[test]
fn clone_and_from_share_one_registry() {
    let mut first = PubSub::new();
    let mut second = PubSub::from(PubSub::clone(&first));
    first.subscribe("shared");
    assert_eq!(second.get_topics(), vec!["shared".to_string()]);
    assert_eq!(second.publish("shared", "m"), Ok(()));
    let mut it = first.listen("shared").unwrap();
    assert_eq!(next_body(&mut it), Some("m".to_string()));
}

#[test]
fn topic_sends_and_listens_once() {
    let (s, r) = unbounded::<Message>();
    let mut topic = Topic::new(&s, &r);
    drop(s);
    drop(r);
    assert_eq!(topic.send_message("a"), Ok(()));
    assert_eq!(topic.send_message("b"), Ok(()));
    let mut it = topic.listen().unwrap();
    assert!(topic.listen().is_none());
    assert_eq!(next_body(&mut it), Some("a".to_string()));
    assert_eq!(next_body(&mut it), Some("b".to_string()));
    drop(topic);
    assert_eq!(next_body(&mut it), None);
}

#[test]
fn registry_operations() {
    let mut topics = Topics::new();
    assert!(topics.names().is_empty());
    topics.subscribe("x");
    assert_eq!(topics.publish("x", "one"), Ok(()));
    assert_eq!(topics.publish("y", "one"), Err(PubSubError::TopicNotFound));
    let mut it = topics.listen("x").unwrap();
    assert_eq!(topics.listen("x").err(), Some(PubSubError::TopicNotFound));
    assert_eq!(topics.publish("x", "two"), Ok(()));
    assert!(topics.take("x").is_some());
    assert!(topics.take("x").is_none());
    assert_eq!(next_body(&mut it), Some("one".to_string()));
    assert_eq!(next_body(&mut it), Some("two".to_string()));
    assert_eq!(next_body(&mut it), None);
}

#[test]
fn send_outcome_maps_each_result() {
    assert_eq!(send_outcome(Ok(())), Ok(()));
    let failed = crossbeam::channel::SendError(Message::new("x"));
    assert_eq!(send_outcome(Err(failed)), Err(PubSubError::SendFailed));
}

#[test]
fn created_topic_uses_its_own_channel() {
    let mut topic = Topic::create();
    assert_eq!(topic.send_message("first"), Ok(()));
    let mut it = topic.listen().unwrap();
    assert!(topic.listen().is_none());
    assert_eq!(topic.send_message("second"), Ok(()));
    assert_eq!(next_body(&mut it), Some("first".to_string()));
    assert_eq!(next_body(&mut it), Some("second".to_string()));
    drop(topic);
    assert_eq!(next_body(&mut it), None);
}
