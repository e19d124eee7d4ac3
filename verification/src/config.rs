//! How the starboard is set up, and what a pressed button in the review
//! queue is taken for.

use vstd::prelude::*;
use crate::ids::ChannelIdWrapper;
use crate::ids::UserIdWrapper;
use crate::review::allowed;
use crate::review::allowed_user;
use crate::review::ReviewOutcome;

verus! {

/// The queue channel that is used where none is set.
pub const DEFAULT_QUEUE_CHANNEL: u64 = 1324543000600383549;

/// The highlight channel that is used where none is set.
pub const DEFAULT_POST_CHANNEL: u64 = 1324437745854316564;

/// The guild that is used where none is set.
pub const DEFAULT_GUILD: u64 = 98226572468690944;

/// The role that is used where none is set.
pub const DEFAULT_ROLE: u64 = 98459030455853056;

/// The general threshold that is used where none is set.
pub const DEFAULT_THRESHOLD: u8 = 5;

/// How the starboard is set up.
#[derive(Debug)]
pub struct StarboardConfig {
    /// Whether the starboard does anything at all.
    pub active: bool,
    /// The channel in which records wait for their review.
    pub queue_channel: ChannelIdWrapper,
    /// The highlight channel.
    pub post_channel: ChannelIdWrapper,
    pub guild_id: u64,
    pub allowed_role: u64,
    pub star_emoji: String,
    /// The number of stars a message needs where its channel asks for no other.
    pub threshold: u8,
}

/// The identifier that a setting gives: the setting itself, or `default`
/// where it is missing or 0, which is no identifier.
pub open spec fn id_or(setting: Option<u64>, default: u64) -> u64 {
    match setting {
        Some(id) => if id != 0 {
            id
        } else {
            default
        },
        None => default,
    }
}

fn pick_id(setting: Option<u64>, default: u64) -> (id: u64)
    ensures
        id == id_or(setting, default),
{
    match setting {
        Some(id) => if id != 0 {
            id
        } else {
            default
        },
        None => default,
    }
}

impl StarboardConfig {
    /// The set-up that the given settings make; a setting that is missing
    /// takes its default: the starboard is active, the star is the emoji,
    /// the threshold is 5, and the channels, the guild and the role are the
    /// community's own.
    pub fn from_settings(
        active: Option<bool>,
        queue_channel: Option<u64>,
        post_channel: Option<u64>,
        guild_id: Option<u64>,
        allowed_role: Option<u64>,
        star_emoji: Option<String>,
        threshold: Option<u8>,
    ) -> (config: StarboardConfig)
        ensures
            config.active == match active {
                Some(a) => a,
                None => true,
            },
            config.queue_channel.0 == id_or(queue_channel, DEFAULT_QUEUE_CHANNEL),
            config.post_channel.0 == id_or(post_channel, DEFAULT_POST_CHANNEL),
            config.guild_id == id_or(guild_id, DEFAULT_GUILD),
            config.allowed_role == id_or(allowed_role, DEFAULT_ROLE),
            config.star_emoji@ == match star_emoji {
                Some(e) => e@,
                None => "\u{2b50}"@,
            },
            config.threshold == match threshold {
                Some(t) => t,
                None => DEFAULT_THRESHOLD,
            },
    {
        StarboardConfig {
            active: match active {
                Some(a) => a,
                None => true,
            },
            queue_channel: ChannelIdWrapper(pick_id(queue_channel, DEFAULT_QUEUE_CHANNEL)),
            post_channel: ChannelIdWrapper(pick_id(post_channel, DEFAULT_POST_CHANNEL)),
            guild_id: pick_id(guild_id, DEFAULT_GUILD),
            allowed_role: pick_id(allowed_role, DEFAULT_ROLE),
            star_emoji: match star_emoji {
                Some(e) => e,
                None => "\u{2b50}".to_owned(),
            },
            threshold: match threshold {
                Some(t) => t,
                None => DEFAULT_THRESHOLD,
            },
        }
    }
}

/// What a pressed button is taken for.
#[derive(Clone, Copy, Debug, PartialEq, Eq, Structural)]
pub enum ComponentDecision {
    /// The button is none of the starboard's business.
    Ignore,
    /// The user may not press it, and is told so in private.
    Refuse,
    /// The user asks for this outcome on the message that carries the button.
    Review(ReviewOutcome),
}

/// The outcome that the button named `custom_id` asks for, if it is one of
/// the two buttons of the review queue.
pub open spec fn outcome_of_button(custom_id: Seq<char>) -> Option<ReviewOutcome> {
    if custom_id == "starboard_accept"@ {
        Some(ReviewOutcome::Accept)
    } else if custom_id == "starboard_deny"@ {
        Some(ReviewOutcome::Deny)
    } else {
        None
    }
}

/// What the press of the button named `custom_id` in `channel` by `user` is
/// taken for: nothing while the starboard is inactive, nothing for other
/// buttons and other channels than the queue, a refusal for a user who is not
/// on the allow-list, and else the outcome that the button asks for.
pub open spec fn decision_of(
    active: bool,
    queue_channel: u64,
    custom_id: Seq<char>,
    channel: u64,
    user: u64,
) -> ComponentDecision {
    if !active {
        ComponentDecision::Ignore
    } else {
        match outcome_of_button(custom_id) {
            None => ComponentDecision::Ignore,
            Some(outcome) => if channel != queue_channel {
                ComponentDecision::Ignore
            } else if !allowed(user) {
                ComponentDecision::Refuse
            } else {
                ComponentDecision::Review(outcome)
            },
        }
    }
}

/// Rules on the press of a button.
pub fn classify_component(
    config: &StarboardConfig,
    custom_id: &String,
    channel_id: ChannelIdWrapper,
    user_id: UserIdWrapper,
) -> (decision: ComponentDecision)
    ensures
        decision == decision_of(config.active, config.queue_channel.0, custom_id@, channel_id.0, user_id.0),
{
    if !config.active {
        return ComponentDecision::Ignore;
    }
    let accept = "starboard_accept".to_owned();
    let deny = "starboard_deny".to_owned();
    let outcome = if *custom_id == accept {
        ReviewOutcome::Accept
    } else if *custom_id == deny {
        ReviewOutcome::Deny
    } else {
        return ComponentDecision::Ignore;
    };
    if channel_id.0 != config.queue_channel.0 {
        return ComponentDecision::Ignore;
    }
    if !allowed_user(user_id) {
        return ComponentDecision::Refuse;
    }
    ComponentDecision::Review(outcome)
}

} // verus!
