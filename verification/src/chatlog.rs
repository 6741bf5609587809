//! Conversation log records.
//!
//! The history store keeps an append-only sequence of records, each an
//! utterance with its speaker. Reading and writing the store is the
//! surrounding application's concern; the records themselves, and how a
//! stored conversation is composed into an outbound request, are the
//! library's.

use vstd::prelude::*;

verus! {

/// Who said an utterance.
#[derive(Clone, Copy, Debug, PartialEq, Eq, Structural)]
pub enum Author {
    User,
    Bot,
}

/// One record of the conversation log.
#[derive(Clone, Debug)]
pub struct LogMessage {
    pub author: Author,
    pub text: String,
}

impl LogMessage {
    /// A record of something the assistant said.
    pub fn bot(text: String) -> (r: LogMessage)
        ensures
            r.author is Bot,
            r.text@ == text@,
    {
        LogMessage { author: Author::Bot, text }
    }

    /// A record of something the user said.
    pub fn user(text: String) -> (r: LogMessage)
        ensures
            r.author is User,
            r.text@ == text@,
    {
        LogMessage { author: Author::User, text }
    }
}

} // verus!
