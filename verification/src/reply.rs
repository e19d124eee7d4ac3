//! How the bot answers a command in a channel: with a message or with a
//! reaction, as far as it may.

use vstd::prelude::*;

verus! {

/// What the bot may do in the channel of a command.
#[derive(Clone, Copy, Debug, PartialEq, Eq, Structural)]
pub struct ChannelPermissions {
    /// Whether the channel is a thread.
    pub from_thread: bool,
    pub send_messages: bool,
    pub send_messages_in_threads: bool,
    pub add_reactions: bool,
}

/// How a command is answered.
#[derive(Clone, Copy, Debug, PartialEq, Eq, Structural)]
pub enum ReplyChoice {
    React,
    Say,
    Nothing,
}

/// Whether the bot may write and whether it may react, in this order; in
/// a thread writing goes by the permission for threads. Where the channel
/// is not known it may do neither.
pub fn has_permissions(found: Option<ChannelPermissions>) -> (r: (bool, bool))
    ensures
        r == match found {
            Some(p) => (
                if p.from_thread {
                    p.send_messages_in_threads
                } else {
                    p.send_messages
                },
                p.add_reactions,
            ),
            None => (false, false),
        },
{
    match found {
        Some(p) => {
            if p.from_thread {
                (p.send_messages_in_threads, p.add_reactions)
            } else {
                (p.send_messages, p.add_reactions)
            }
        },
        None => (false, false),
    }
}

/// How to answer: `flipped` prefers the reaction, else the message is
/// preferred; the other is taken where the preferred one is not allowed,
/// and nothing where neither is.
pub open spec fn choice_of(flipped: bool, message: bool, react: bool) -> ReplyChoice {
    if flipped {
        if react {
            ReplyChoice::React
        } else if message {
            ReplyChoice::Say
        } else {
            ReplyChoice::Nothing
        }
    } else {
        if message {
            ReplyChoice::Say
        } else if react {
            ReplyChoice::React
        } else {
            ReplyChoice::Nothing
        }
    }
}

/// Chooses how to answer.
pub fn message_react(flipped: bool, message: bool, react: bool) -> (choice: ReplyChoice)
    ensures
        choice == choice_of(flipped, message, react),
{
    if (flipped && react) || (!flipped && !message) {
        if react {
            ReplyChoice::React
        } else {
            ReplyChoice::Nothing
        }
    } else {
        if message {
            ReplyChoice::Say
        } else {
            ReplyChoice::Nothing
        }
    }
}

} // verus!
