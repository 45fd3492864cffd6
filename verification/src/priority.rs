//! How urgent a goal or a mission is.

use vstd::prelude::*;

verus! {

#[derive(Debug, Clone, Copy, PartialEq, Eq, Structural)]
pub enum Priority {
    Low,
    Normal,
    High,
    Critical,
}

/// The upper-case label a priority is displayed with.
pub open spec fn priority_label(p: Priority) -> Seq<char> {
    match p {
        Priority::Low => "LOW"@,
        Priority::Normal => "NORMAL"@,
        Priority::High => "HIGH"@,
        Priority::Critical => "CRITICAL"@,
    }
}

impl Priority {
    /// The label of this priority, as it appears in event payloads.
    pub fn to_string(&self) -> (res: String)
        ensures
            res@ == priority_label(*self),
    {
        match self {
            Priority::Low => String::from_str("LOW"),
            Priority::Normal => String::from_str("NORMAL"),
            Priority::High => String::from_str("HIGH"),
            Priority::Critical => String::from_str("CRITICAL"),
        }
    }
}

} // verus!
