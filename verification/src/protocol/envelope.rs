//! The envelope every message travels in, and the constructors for events,
//! commands and responses.

use vstd::prelude::*;
use crate::ids::{fresh_uuid, is_random_uuid, now, Timestamp};
use crate::json::{pairs_view, distinct_keys, lookup, lemma_lookup_at};
use super::correlation::CorrelationId;
use super::message::MessageType;
use super::topic::Topic;

verus! {

#[derive(Debug, Clone)]
pub struct AespEnvelope {
    /// A UUID, carried as its 128-bit value.
    pub message_id: u128,
    pub correlation_id: CorrelationId,
    /// When it was made.
    pub timestamp: Timestamp,
    pub source: String,
    pub target: Option<String>,
    pub topic: Topic,
    pub message_type: MessageType,
    /// The body, as JSON text.
    pub payload: String,
    /// Free-form key/value annotations; a key occurs at most once.
    pub metadata: Vec<(String, String)>,
}

/// `env` is a new envelope from `source` on `topic`, of kind `kind`, with
/// body `payload`, no target and no metadata.
pub open spec fn fresh_envelope(
    env: AespEnvelope,
    source: Seq<char>,
    topic: Seq<char>,
    kind: MessageType,
    payload: Seq<char>,
) -> bool {
    &&& env.source@ == source
    &&& env.topic@ == topic
    &&& env.message_type == kind
    &&& env.payload@ == payload
    &&& env.target is None
    &&& env.metadata@.len() == 0
}

/// `env` is a new event from `source` on `topic` with body `payload`.
pub open spec fn is_event(env: AespEnvelope, source: Seq<char>, topic: Seq<char>, payload: Seq<char>) -> bool {
    fresh_envelope(env, source, topic, MessageType::Event, payload)
}

/// The metadata `m` with `key` set to `value`: every entry under `key`
/// gets the new value, or a new entry is appended when there is none.
pub open spec fn metadata_insert(
    m: Seq<(Seq<char>, Seq<char>)>,
    key: Seq<char>,
    value: Seq<char>,
) -> Seq<(Seq<char>, Seq<char>)> {
    if exists|i: int| 0 <= i < m.len() && m[i].0 == key {
        m.map_values(|p: (Seq<char>, Seq<char>)| if p.0 == key { (key, value) } else { p })
    } else {
        m.push((key, value))
    }
}

/// Setting a metadata key keeps every key unique, and reading the key back
/// gives the value just set.
pub proof fn lemma_metadata_insert(m: Seq<(Seq<char>, Seq<char>)>, key: Seq<char>, value: Seq<char>)
    requires
        distinct_keys(m),
    ensures
        distinct_keys(metadata_insert(m, key, value)),
        lookup(metadata_insert(m, key, value), key) == Some(value),
{
    let r = metadata_insert(m, key, value);
    if exists|i: int| 0 <= i < m.len() && m[i].0 == key {
        let i = choose|i: int| 0 <= i < m.len() && m[i].0 == key;
        assert forall|a: int, b: int| 0 <= a < r.len() && 0 <= b < r.len() && a != b implies r[a].0
            != r[b].0 by {
            assert(r[a].0 == m[a].0);
            assert(r[b].0 == m[b].0);
        }
        assert(r[i] == (key, value));
        lemma_lookup_at(r, i);
    } else {
        assert forall|a: int, b: int| 0 <= a < r.len() && 0 <= b < r.len() && a != b implies r[a].0
            != r[b].0 by {
            if a < m.len() && b < m.len() {
                assert(r[a] == m[a] && r[b] == m[b]);
            } else if a < m.len() {
                assert(r[a] == m[a]);
            } else if b < m.len() {
                assert(r[b] == m[b]);
            }
        }
        lemma_lookup_at(r, m.len() as int);
    }
}

impl AespEnvelope {
    /// A new envelope with a fresh message identifier and correlation
    /// identifier, stamped with the current time.
    pub fn new(source: &str, topic: &str, message_type: MessageType, payload: String) -> (res: Self)
        ensures
            fresh_envelope(res, source@, topic@, message_type, payload@),
            is_random_uuid(res.message_id),
            is_random_uuid(res.correlation_id.0),
    {
        AespEnvelope {
            message_id: fresh_uuid(),
            correlation_id: CorrelationId::new(),
            timestamp: now(),
            source: source.to_owned(),
            target: None,
            topic: Topic::new(topic),
            message_type,
            payload,
            metadata: Vec::new(),
        }
    }

    pub fn with_target(self, target: &str) -> (res: Self)
        ensures
            res.target matches Some(t) && t@ == target@,
            res == (AespEnvelope { target: res.target, ..self }),
    {
        let mut env = self;
        env.target = Some(target.to_owned());
        env
    }

    /// Sets metadata `key` to `value`, replacing any value it had.
    pub fn with_metadata(self, key: &str, value: &str) -> (res: Self)
        ensures
            pairs_view(res.metadata@) == metadata_insert(pairs_view(self.metadata@), key@, value@),
            res == (AespEnvelope { metadata: res.metadata, ..self }),
    {
        let mut env = self;
        let ghost m0 = pairs_view(env.metadata@);
        let n = env.metadata.len();
        let mut found = false;
        let mut i: usize = 0;
        while i < n
            invariant
                n == env.metadata@.len(),
                m0.len() == n,
                i <= n,
                found <==> exists|j: int| 0 <= j < i && m0[j].0 == key@,
                forall|j: int|
                    0 <= j < n ==> #[trigger] pairs_view(env.metadata@)[j] == if j < i && m0[j].0
                        == key@ {
                        (key@, value@)
                    } else {
                        m0[j]
                    },
                env == (AespEnvelope { metadata: env.metadata, ..self }),
            decreases n - i,
        {
            let ghost before = env.metadata@;
            assert(pairs_view(before)[i as int] == m0[i as int]);
            let is_key = crate::text::str_eq(env.metadata[i].0.as_str(), key);
            if is_key {
                let k = env.metadata[i].0.clone();
                env.metadata.set(i, (k, value.to_owned()));
                found = true;
                proof {
                    assert forall|j: int| 0 <= j < n implies #[trigger] pairs_view(env.metadata@)[j]
                        == if j < i + 1 && m0[j].0 == key@ {
                        (key@, value@)
                    } else {
                        m0[j]
                    } by {
                        if j != i {
                            assert(pairs_view(before)[j] == pairs_view(env.metadata@)[j]);
                        }
                    }
                }
            } else {
                assert forall|j: int| 0 <= j < n implies #[trigger] pairs_view(env.metadata@)[j]
                    == if j < i + 1 && m0[j].0 == key@ {
                    (key@, value@)
                } else {
                    m0[j]
                } by {}
            }
            assert(found <==> exists|j: int| 0 <= j < i + 1 && m0[j].0 == key@) by {
                if m0[i as int].0 == key@ {
                    assert(0 <= i < i + 1 && m0[i as int].0 == key@);
                }
            }
            i = i + 1;
        }
        if !found {
            let ghost before = env.metadata@;
            env.metadata.push((key.to_owned(), value.to_owned()));
            assert(pairs_view(env.metadata@) =~= m0.push((key@, value@))) by {
                assert(pairs_view(before) =~= m0);
                assert forall|j: int| 0 <= j < n implies pairs_view(env.metadata@)[j] == m0[j] by {
                    assert(pairs_view(before)[j] == m0[j]);
                }
            }
        } else {
            assert(pairs_view(env.metadata@) =~= m0.map_values(
                |p: (Seq<char>, Seq<char>)| if p.0 == key@ { (key@, value@) } else { p },
            ));
        }
        env
    }

    pub fn with_correlation_id(self, id: CorrelationId) -> (res: Self)
        ensures
            res == (AespEnvelope { correlation_id: id, ..self }),
    {
        let mut env = self;
        env.correlation_id = id;
        env
    }
}

/// A new event from `source` on `topic`.
pub fn create_event(source: &str, topic: &str, payload: String) -> (res: AespEnvelope)
    ensures
        is_event(res, source@, topic@, payload@),
        is_random_uuid(res.message_id),
        is_random_uuid(res.correlation_id.0),
{
    AespEnvelope::new(source, topic, MessageType::Event, payload)
}

/// A new command from `source` to `target` on `topic`.
pub fn create_command(source: &str, target: &str, topic: &str, payload: String) -> (res: AespEnvelope)
    ensures
        res.source@ == source@,
        res.topic@ == topic@,
        res.message_type == MessageType::Command,
        res.payload@ == payload@,
        res.target matches Some(t) && t@ == target@,
        res.metadata@.len() == 0,
        is_random_uuid(res.message_id),
        is_random_uuid(res.correlation_id.0),
{
    AespEnvelope::new(source, topic, MessageType::Command, payload).with_target(target)
}

/// A new response from `source` on `topic`, carrying the correlation
/// identifier of the request it answers.
pub fn create_response(source: &str, topic: &str, payload: String, correlation_id: CorrelationId) -> (res:
    AespEnvelope)
    ensures
        fresh_envelope(res, source@, topic@, MessageType::Response, payload@),
        res.correlation_id == correlation_id,
        is_random_uuid(res.message_id),
{
    AespEnvelope::new(source, topic, MessageType::Response, payload).with_correlation_id(correlation_id)
}

} // verus!
