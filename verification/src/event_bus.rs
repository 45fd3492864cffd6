//! Routing of published envelopes to subscribers.
//!
//! Subscriptions are kept as one list of (pattern, handler) pairs, in the
//! order they were made, so that dispatch order is subscription order and is
//! the same on every run. A handler is named by an identifier that the
//! process hosting the handlers assigns; the table decides which handlers
//! receive an envelope, and in which order.

use vstd::prelude::*;
use crate::protocol::topic::{topic_matches, pattern_matches};
use crate::text::str_eq;

verus! {

/// An event of the simple bus, which delivers on exact topics only.
#[derive(Debug, Clone)]
pub struct Event {
    pub id: String,
    pub topic: String,
    /// The body, as JSON text.
    pub payload: String,
    pub timestamp: u64,
}

/// The identifier a subscriber's handler is known by.
pub type HandlerId = u64;

/// The subscriptions of a table, as (pattern, handler) pairs in the order
/// they were made.
pub type Subscriptions = Seq<(Seq<char>, HandlerId)>;

/// The handlers an envelope on `topic` is dispatched to, in order: the
/// handler of every subscription whose pattern matches `topic`, in the order
/// the subscriptions were made.
pub open spec fn dispatch_list(t: Subscriptions, topic: Seq<char>) -> Seq<HandlerId>
    decreases t.len(),
{
    if t.len() == 0 {
        seq![]
    } else {
        dispatch_list(t.drop_last(), topic) + if topic_matches(t.last().0, topic) {
            seq![t.last().1]
        } else {
            Seq::<HandlerId>::empty()
        }
    }
}

/// The handlers subscribed to exactly `topic`, in subscription order.
pub open spec fn exact_list(t: Subscriptions, topic: Seq<char>) -> Seq<HandlerId>
    decreases t.len(),
{
    if t.len() == 0 {
        seq![]
    } else {
        exact_list(t.drop_last(), topic) + if t.last().0 == topic {
            seq![t.last().1]
        } else {
            Seq::<HandlerId>::empty()
        }
    }
}

/// How many times `h` occurs in `s`.
pub open spec fn occurrences(s: Seq<HandlerId>, h: HandlerId) -> nat
    decreases s.len(),
{
    if s.len() == 0 {
        0
    } else {
        occurrences(s.drop_last(), h) + if s.last() == h {
            1nat
        } else {
            0nat
        }
    }
}

/// How many subscriptions of `t` hold handler `h` under a pattern that
/// matches `topic`.
pub open spec fn matching_subscriptions(t: Subscriptions, topic: Seq<char>, h: HandlerId) -> nat
    decreases t.len(),
{
    if t.len() == 0 {
        0
    } else {
        matching_subscriptions(t.drop_last(), topic, h) + if t.last().1 == h && topic_matches(
            t.last().0,
            topic,
        ) {
            1nat
        } else {
            0nat
        }
    }
}

/// Whether some subscription of `t` holds handler `h` under a pattern that
/// matches `topic`.
pub open spec fn subscribed_matching(t: Subscriptions, topic: Seq<char>, h: HandlerId) -> bool {
    exists|i: int| 0 <= i < t.len() && topic_matches(t[i].0, topic) && #[trigger] t[i].1 == h
}

/// No two subscriptions of `t` share a handler.
pub open spec fn distinct_handlers(t: Subscriptions) -> bool {
    forall|i: int, j: int| 0 <= i < t.len() && 0 <= j < t.len() && i != j ==> t[i].1 != t[j].1
}

/// Dispatch goes to the handlers of the subscriptions whose pattern matches
/// the topic, in the order the subscriptions were made.
pub proof fn lemma_dispatch_in_subscription_order(t: Subscriptions, topic: Seq<char>)
    ensures
        dispatch_list(t, topic) == t.filter(|e: (Seq<char>, HandlerId)| topic_matches(e.0, topic)).map_values(
            |e: (Seq<char>, HandlerId)| e.1,
        ),
    decreases t.len(),
{
    reveal(Seq::filter);
    let pred = |e: (Seq<char>, HandlerId)| topic_matches(e.0, topic);
    let second = |e: (Seq<char>, HandlerId)| e.1;
    if t.len() == 0 {
        assert(t.filter(pred).map_values(second) =~= Seq::<HandlerId>::empty());
    } else {
        lemma_dispatch_in_subscription_order(t.drop_last(), topic);
        let rest = t.drop_last().filter(pred);
        if pred(t.last()) {
            assert(t.filter(pred) == rest.push(t.last()));
            assert(rest.push(t.last()).map_values(second) =~= rest.map_values(second) + seq![t.last().1]);
        } else {
            assert(t.filter(pred) == rest);
            assert(rest.map_values(second) + Seq::<HandlerId>::empty() =~= rest.map_values(second));
        }
    }
}

/// An envelope reaches a handler exactly when the handler is subscribed
/// under a pattern that matches the envelope's topic.
pub proof fn lemma_dispatch_reaches_matching_subscribers(
    t: Subscriptions,
    topic: Seq<char>,
    handler: HandlerId,
)
    ensures
        dispatch_list(t, topic).contains(handler) <==> subscribed_matching(t, topic, handler),
    decreases t.len(),
{
    if t.len() > 0 {
        let init = t.drop_last();
        lemma_dispatch_reaches_matching_subscribers(init, topic, handler);
        let d0 = dispatch_list(init, topic);
        let d = dispatch_list(t, topic);
        let last = t[t.len() - 1];
        if d.contains(handler) {
            let k = choose|k: int| 0 <= k < d.len() && d[k] == handler;
            if k < d0.len() {
                assert(d0[k] == handler);
                let i = choose|i: int|
                    0 <= i < init.len() && topic_matches(init[i].0, topic) && #[trigger] init[i].1
                        == handler;
                assert(t[i] == init[i]);
            } else {
                assert(topic_matches(last.0, topic) && last.1 == handler);
            }
        }
        if exists|i: int| 0 <= i < t.len() && topic_matches(t[i].0, topic) && #[trigger] t[i].1 == handler {
            let i = choose|i: int|
                0 <= i < t.len() && topic_matches(t[i].0, topic) && #[trigger] t[i].1 == handler;
            if i < t.len() - 1 {
                assert(init[i] == t[i]);
                assert(init[i].1 == handler);
                let k = choose|k: int| 0 <= k < d0.len() && d0[k] == handler;
                assert(d[k] == handler);
            } else {
                assert(d[d0.len() as int] == handler);
            }
        }
    }
}

/// Each subscription whose pattern matches the topic is reached once: a
/// handler occurs in the dispatch list as many times as it was subscribed
/// under a matching pattern.
pub proof fn lemma_each_matching_subscription_reached_once(
    t: Subscriptions,
    topic: Seq<char>,
    handler: HandlerId,
)
    ensures
        occurrences(dispatch_list(t, topic), handler) == matching_subscriptions(t, topic, handler),
    decreases t.len(),
{
    if t.len() > 0 {
        lemma_each_matching_subscription_reached_once(t.drop_last(), topic, handler);
        let d0 = dispatch_list(t.drop_last(), topic);
        if topic_matches(t.last().0, topic) {
            let d = d0 + seq![t.last().1];
            assert(d.drop_last() =~= d0);
        } else {
            assert(d0 + Seq::<HandlerId>::empty() =~= d0);
        }
    }
}

proof fn lemma_matching_subscriptions_of_distinct(t: Subscriptions, topic: Seq<char>, handler: HandlerId)
    requires
        distinct_handlers(t),
    ensures
        matching_subscriptions(t, topic, handler) == if subscribed_matching(t, topic, handler) {
            1nat
        } else {
            0nat
        },
    decreases t.len(),
{
    if t.len() > 0 {
        let init = t.drop_last();
        let n = t.len() - 1;
        assert(distinct_handlers(init)) by {
            assert forall|i: int, j: int| 0 <= i < init.len() && 0 <= j < init.len() && i != j implies init[i].1
                != init[j].1 by {
                assert(init[i] == t[i] && init[j] == t[j]);
            }
        }
        lemma_matching_subscriptions_of_distinct(init, topic, handler);
        if t[n].1 == handler && topic_matches(t[n].0, topic) {
            if subscribed_matching(init, topic, handler) {
                let i = choose|i: int|
                    0 <= i < init.len() && topic_matches(init[i].0, topic) && #[trigger] init[i].1 == handler;
                assert(t[i] == init[i]);
            }
            assert(t[n].1 == handler);
        } else {
            if subscribed_matching(t, topic, handler) {
                let i = choose|i: int|
                    0 <= i < t.len() && topic_matches(t[i].0, topic) && #[trigger] t[i].1 == handler;
                assert(i < n);
                assert(init[i] == t[i]);
                assert(init[i].1 == handler);
            }
            if subscribed_matching(init, topic, handler) {
                let i = choose|i: int|
                    0 <= i < init.len() && topic_matches(init[i].0, topic) && #[trigger] init[i].1 == handler;
                assert(t[i] == init[i]);
                assert(t[i].1 == handler);
            }
        }
    }
}

/// When every subscription has a handler of its own (as when the host
/// names each subscription's handler afresh), an envelope reaches each
/// handler subscribed under a matching pattern exactly once and every other
/// handler not at all.
pub proof fn lemma_distinct_handlers_reached_once(t: Subscriptions, topic: Seq<char>, handler: HandlerId)
    requires
        distinct_handlers(t),
    ensures
        occurrences(dispatch_list(t, topic), handler) == if subscribed_matching(t, topic, handler) {
            1nat
        } else {
            0nat
        },
{
    lemma_each_matching_subscription_reached_once(t, topic, handler);
    lemma_matching_subscriptions_of_distinct(t, topic, handler);
}

/// An envelope on a topic that no subscribed pattern matches reaches no
/// handler: it is dropped.
pub proof fn lemma_unmatched_topic_reaches_nobody(t: Subscriptions, topic: Seq<char>)
    requires
        forall|i: int| 0 <= i < t.len() ==> !topic_matches(#[trigger] t[i].0, topic),
    ensures
        dispatch_list(t, topic) == Seq::<HandlerId>::empty(),
    decreases t.len(),
{
    if t.len() > 0 {
        let init = t.drop_last();
        assert forall|i: int| 0 <= i < init.len() implies !topic_matches(#[trigger] init[i].0, topic) by {
            assert(init[i] == t[i]);
        }
        lemma_unmatched_topic_reaches_nobody(init, topic);
        assert(!topic_matches(t[t.len() - 1].0, topic));
        assert(dispatch_list(t, topic) =~= Seq::<HandlerId>::empty());
    }
}

/// A new subscription adds its handler after every handler already reached
/// when its pattern matches the topic, and changes nothing otherwise; the
/// same holds of the exact-topic list.
pub proof fn lemma_subscribe_appends(
    t: Subscriptions,
    pattern: Seq<char>,
    handler: HandlerId,
    topic: Seq<char>,
)
    ensures
        dispatch_list(t.push((pattern, handler)), topic) == dispatch_list(t, topic) + if topic_matches(
            pattern,
            topic,
        ) {
            seq![handler]
        } else {
            Seq::<HandlerId>::empty()
        },
        exact_list(t.push((pattern, handler)), topic) == if pattern == topic {
            exact_list(t, topic).push(handler)
        } else {
            exact_list(t, topic)
        },
{
    let t2 = t.push((pattern, handler));
    assert(t2.drop_last() =~= t);
    assert(exact_list(t, topic) + seq![handler] =~= exact_list(t, topic).push(handler));
    assert(exact_list(t, topic) + Seq::<HandlerId>::empty() =~= exact_list(t, topic));
}

/// Who is subscribed to what.
pub struct SubscriptionTable {
    entries: Vec<(String, HandlerId)>,
}

impl View for SubscriptionTable {
    type V = Subscriptions;

    closed spec fn view(&self) -> Subscriptions {
        self.entries@.map_values(|e: (String, HandlerId)| (e.0@, e.1))
    }
}

impl SubscriptionTable {
    pub fn new() -> (res: Self)
        ensures
            res@ == Seq::<(Seq<char>, HandlerId)>::empty(),
    {
        let res = SubscriptionTable { entries: Vec::new() };
        assert(res@ =~= Seq::<(Seq<char>, HandlerId)>::empty());
        res
    }

    /// Subscribes `handler` to `topic`, after every subscription already
    /// made.
    pub fn subscribe(&mut self, topic: &str, handler: HandlerId)
        ensures
            final(self)@ == old(self)@.push((topic@, handler)),
    {
        let ghost t = self@;
        self.entries.push((topic.to_owned(), handler));
        assert(self@ =~= t.push((topic@, handler)));
    }

    /// Unsubscribing is not supported yet: the table is left as it is.
    pub fn unsubscribe(&mut self, topic: &str)
        ensures
            final(self)@ == old(self)@,
    {
    }

    /// The handlers that an envelope published on `topic` goes to, in
    /// dispatch order.
    pub fn dispatch_targets(&self, topic: &str) -> (res: Vec<HandlerId>)
        ensures
            res@ == dispatch_list(self@, topic@),
    {
        let n = self.entries.len();
        let mut res: Vec<HandlerId> = Vec::new();
        let mut i: usize = 0;
        while i < n
            invariant
                n == self.entries@.len(),
                n == self@.len(),
                i <= n,
                res@ == dispatch_list(self@.take(i as int), topic@),
            decreases n - i,
        {
            assert(self@.take(i + 1).drop_last() =~= self@.take(i as int));
            assert(self@[i as int] == (self.entries@[i as int].0@, self.entries@[i as int].1));
            if pattern_matches(self.entries[i].0.as_str(), topic) {
                res.push(self.entries[i].1);
                assert(res@ =~= dispatch_list(self@.take(i as int), topic@) + seq![self@[i as int].1]);
            } else {
                assert(res@ =~= res@ + Seq::<HandlerId>::empty());
            }
            i = i + 1;
        }
        assert(self@.take(n as int) =~= self@);
        res
    }

    /// The handlers subscribed to exactly `topic`, in subscription order.
    pub fn exact_targets(&self, topic: &str) -> (res: Vec<HandlerId>)
        ensures
            res@ == exact_list(self@, topic@),
    {
        let n = self.entries.len();
        let mut res: Vec<HandlerId> = Vec::new();
        let mut i: usize = 0;
        while i < n
            invariant
                n == self.entries@.len(),
                n == self@.len(),
                i <= n,
                res@ == exact_list(self@.take(i as int), topic@),
            decreases n - i,
        {
            assert(self@.take(i + 1).drop_last() =~= self@.take(i as int));
            assert(self@[i as int] == (self.entries@[i as int].0@, self.entries@[i as int].1));
            if str_eq(self.entries[i].0.as_str(), topic) {
                res.push(self.entries[i].1);
                assert(res@ =~= exact_list(self@.take(i as int), topic@) + seq![self@[i as int].1]);
            } else {
                assert(res@ =~= res@ + Seq::<HandlerId>::empty());
            }
            i = i + 1;
        }
        assert(self@.take(n as int) =~= self@);
        res
    }
}

} // verus!
