//! Laws of the registry, stated over its abstract map from name to
//! incarnation and proved from the operations' models.
use crate::topic::{fresh_topic, TopicView};
use crate::topics::{after_listen, after_publish, can_listen};
use vstd::prelude::*;

verus! {

/// After `subscribe(n)` and the successful publishes of `b1` then `b2`,
/// the record of what was sent on the incarnation of `n` is exactly `b1`
/// then `b2`, in that order; a listener can take the incarnation, and
/// taking it leaves that record as it was.
pub proof fn law_publish_order(
    m: Map<Seq<char>, TopicView>,
    n: Seq<char>,
    b1: Seq<char>,
    b2: Seq<char>,
)
    ensures
        ({
            let m3 = after_publish(after_publish(m.insert(n, fresh_topic()), n, b1), n, b2);
            &&& m3[n].sent == seq![b1, b2]
            &&& can_listen(m3, n)
            &&& after_listen(m3, n)[n].sent == seq![b1, b2]
        }),
{
    assert(seq![b1, b2] =~= Seq::<Seq<char>>::empty().push(b1).push(b2));
}

/// A name that was unsubscribed is no longer registered, so publishing or
/// listening to it fails with `TopicNotFound`.
pub proof fn law_unsubscribed_is_unknown(m: Map<Seq<char>, TopicView>, n: Seq<char>)
    ensures
        !m.remove(n).contains_key(n),
        !can_listen(m.remove(n), n),
{
}

/// Subscribing again to `n` discards what the earlier incarnation held:
/// after `subscribe(n)`, publishing `x`, `subscribe(n)` and publishing `y`,
/// the incarnation of `n` holds `y` alone.
pub proof fn law_resubscribe_resets(
    m: Map<Seq<char>, TopicView>,
    n: Seq<char>,
    x: Seq<char>,
    y: Seq<char>,
)
    ensures
        ({
            let m1 = after_publish(m.insert(n, fresh_topic()), n, x);
            let m2 = after_publish(m1.insert(n, fresh_topic()), n, y);
            &&& m2[n].sent == seq![y]
            &&& can_listen(m2, n)
        }),
{
    assert(seq![y] =~= Seq::<Seq<char>>::empty().push(y));
}

/// An incarnation is listened to at most once: after `listen(n)`, whether
/// it succeeded or not, a second `listen(n)` fails.
pub proof fn law_listen_once(m: Map<Seq<char>, TopicView>, n: Seq<char>)
    ensures
        !can_listen(after_listen(m, n), n),
{
}

/// Subscribing `a` and `b` and then unsubscribing `a` leaves `b` registered,
/// beside the names that were there before, other than `a`.
pub proof fn law_names_after_unsubscribe(
    m: Map<Seq<char>, TopicView>,
    a: Seq<char>,
    b: Seq<char>,
)
    requires
        a != b,
    ensures
        m.insert(a, fresh_topic()).insert(b, fresh_topic()).remove(a).dom() == m.dom().remove(
            a,
        ).insert(b),
{
    assert(m.insert(a, fresh_topic()).insert(b, fresh_topic()).remove(a).dom() =~= m.dom().remove(
        a,
    ).insert(b));
}

} // verus!
