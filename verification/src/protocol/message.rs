//! The kinds of message an envelope can carry.

use vstd::prelude::*;

verus! {

#[derive(Debug, Clone, Copy, PartialEq, Eq, Structural)]
pub enum MessageType {
    Event,
    Command,
    Response,
    Notification,
}

/// The upper-case label a message kind is displayed with.
pub open spec fn message_type_label(t: MessageType) -> Seq<char> {
    match t {
        MessageType::Event => "EVENT"@,
        MessageType::Command => "COMMAND"@,
        MessageType::Response => "RESPONSE"@,
        MessageType::Notification => "NOTIFICATION"@,
    }
}

impl MessageType {
    pub fn to_string(&self) -> (res: String)
        ensures
            res@ == message_type_label(*self),
    {
        match self {
            MessageType::Event => String::from_str("EVENT"),
            MessageType::Command => String::from_str("COMMAND"),
            MessageType::Response => String::from_str("RESPONSE"),
            MessageType::Notification => String::from_str("NOTIFICATION"),
        }
    }
}

} // verus!
