//! The message actions offered to the UI, as the requests they send.

use vstd::prelude::*;

verus! {

/// A request to queue a new message.
pub struct QueueMessage {
    pub session_id: i32,
    pub message: String,
    pub attachment: String,
    pub quote: i32,
}

/// A request to change the disappearing-message timer of a session.
#[derive(Clone, Copy, PartialEq, Eq, Debug)]
pub struct QueueExpiryUpdate {
    pub session_id: i32,
    /// The timer in seconds; `None` turns it off.
    pub expires_in: Option<u64>,
}

/// A request to react to a message, or to take a reaction back.
pub struct SendReaction {
    pub message_id: i32,
    pub sender_id: i32,
    pub emoji: String,
    pub remove: bool,
}

/// The timer that a number of seconds from the UI stands for: a positive
/// number is the timer, anything else turns it off.
pub fn expiry_timer(expires_in: i32) -> (r: Option<u64>)
    ensures
        r == if expires_in > 0 {
            Some(expires_in as u64)
        } else {
            None
        },
{
    if expires_in > 0 {
        Some(expires_in as u64)
    } else {
        None
    }
}

/// The messaging actions of the UI, as the requests they send.
pub struct MessageMethods;

impl MessageMethods {
    /// The request for a new message (`add` is not used).
    pub fn create_message(&self, session_id: i32, message: String, attachment: String, quote: i32, add: bool) -> (r: QueueMessage)
        ensures
            r.session_id == session_id,
            r.message@ == message@,
            r.attachment@ == attachment@,
            r.quote == quote,
    {
        QueueMessage { session_id, message, attachment, quote }
    }

    /// The request for a new disappearing-message timer.
    pub fn create_expiry_update(&self, session_id: i32, expires_in: i32) -> (r: QueueExpiryUpdate)
        ensures
            r.session_id == session_id,
            r.expires_in == if expires_in > 0 {
                Some(expires_in as u64)
            } else {
                None
            },
    {
        QueueExpiryUpdate { session_id, expires_in: expiry_timer(expires_in) }
    }

    /// The request for a reaction.
    pub fn send_reaction(&self, message_id: i32, sender_id: i32, emoji: String, remove: bool) -> (r: SendReaction)
        ensures
            r.message_id == message_id,
            r.sender_id == sender_id,
            r.emoji@ == emoji@,
            r.remove == remove,
    {
        SendReaction { message_id, sender_id, emoji, remove }
    }
}

} // verus!
