//! Topics name the streams that envelopes travel on. A subscription pattern
//! that ends in `*` matches every topic that begins with the rest of it.

use vstd::prelude::*;
use vstd::string::*;
use crate::text::{seq_starts_with, starts_with_chars, str_eq};

verus! {

/// Whether the subscription pattern `pattern` matches the topic `topic`:
/// a pattern ending in `*` matches every topic that starts with the part
/// before the `*`; any other pattern matches only itself.
pub open spec fn topic_matches(pattern: Seq<char>, topic: Seq<char>) -> bool {
    if pattern.len() > 0 && pattern.last() == '*' {
        seq_starts_with(topic, pattern.drop_last())
    } else {
        pattern == topic
    }
}

/// The name of a message stream, such as `system.boot` or `mission.*`.
#[derive(Debug)]
pub struct Topic(pub String);

impl View for Topic {
    type V = Seq<char>;

    open spec fn view(&self) -> Seq<char> {
        self.0@
    }
}

impl Clone for Topic {
    fn clone(&self) -> (res: Self)
        ensures
            res@ == self@,
    {
        Topic(self.0.clone())
    }
}

impl Topic {
    pub fn new(s: &str) -> (res: Self)
        ensures
            res@ == s@,
    {
        Topic(s.to_owned())
    }

    pub fn as_str(&self) -> (res: &str)
        ensures
            res@ == self@,
    {
        self.0.as_str()
    }

    /// The topic's name, as it is displayed.
    pub fn to_string(&self) -> (res: String)
        ensures
            res@ == self@,
    {
        self.0.clone()
    }

    /// Simple prefix match for wildcard-like behaviour: `system.*` matches
    /// `system.boot`.
    pub fn matches(&self, other: &str) -> (res: bool)
        ensures
            res == topic_matches(self@, other@),
    {
        pattern_matches(self.0.as_str(), other)
    }
}

/// Whether the subscription pattern `pattern` matches the topic `other`.
pub fn pattern_matches(pattern: &str, other: &str) -> (res: bool)
    ensures
        res == topic_matches(pattern@, other@),
{
    let n = pattern.unicode_len();
    if n > 0 && pattern.get_char(n - 1) == '*' {
        let res = starts_with_chars(other, pattern, n - 1);
        assert(pattern@.subrange(0, n - 1) =~= pattern@.drop_last());
        res
    } else {
        str_eq(pattern, other)
    }
}

} // verus!
