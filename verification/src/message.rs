//! The record of one curated message.

use vstd::prelude::*;
use crate::error::StarboardError;
use crate::ids::ChannelIdWrapper;
use crate::ids::MaybeMessageIdWrapper;
use crate::ids::MessageIdWrapper;
use crate::ids::UserIdWrapper;
use crate::status::Posting;
use crate::status::StarboardStatus;
use crate::status::Transition;

verus! {

/// One curated message: who wrote what and where, how many stars it has
/// gathered, where it stands in its review and under which message it is
/// posted.
#[derive(Debug)]
pub struct StarboardMessage {
    /// The number the store gave the record; never changes once given.
    pub id: i32,
    pub user_id: UserIdWrapper,
    pub username: String,
    pub avatar_url: Option<String>,
    /// The text of the message as it was when it was curated.
    pub content: String,
    pub channel_id: ChannelIdWrapper,
    /// The curated message itself. At most one record that is not denied
    /// stands for a message.
    pub message_id: MessageIdWrapper,
    pub attachment_urls: Vec<String>,
    pub star_count: i16,
    pub starboard_status: StarboardStatus,
    /// The message under which the record is posted: in the queue while in
    /// review, in the highlight channel once accepted.
    pub starboard_message_id: MessageIdWrapper,
    pub starboard_message_channel: ChannelIdWrapper,
    pub reply_message_id: MaybeMessageIdWrapper,
    pub reply_username: Option<String>,
    pub forwarded: bool,
}

/// What a record says, as plain mathematical values.
pub struct Record {
    pub id: i32,
    pub user_id: u64,
    pub username: Seq<char>,
    pub avatar_url: Option<Seq<char>>,
    pub content: Seq<char>,
    pub channel_id: u64,
    pub message_id: u64,
    pub attachment_urls: Seq<Seq<char>>,
    pub star_count: i16,
    pub status: StarboardStatus,
    pub starboard_message_id: u64,
    pub starboard_message_channel: u64,
    pub reply_message_id: Option<u64>,
    pub reply_username: Option<Seq<char>>,
    pub forwarded: bool,
}

impl Record {
    /// Whether the record counts for the rule that a message has one record:
    /// a denied one does not.
    pub open spec fn active(self) -> bool {
        self.status != StarboardStatus::Denied
    }

    /// The record under the store's number `id`.
    pub open spec fn with_id(self, id: i32) -> Record {
        Record { id, ..self }
    }

    /// The record with `count` stars.
    pub open spec fn with_star_count(self, count: i16) -> Record {
        Record { star_count: count, ..self }
    }

    /// Whether the record may take `count` as its number of stars: only
    /// while it is in review, and only if it loses none.
    pub open spec fn takes_star_count(self, count: i16) -> bool {
        self.status == StarboardStatus::InReview && count >= self.star_count
    }

    /// The record after the legal change `t`.
    pub open spec fn after(self, t: Transition) -> Record {
        match t {
            Transition::Accept(p) => Record {
                status: StarboardStatus::Accepted,
                starboard_message_id: p.message_id.0,
                starboard_message_channel: p.channel_id.0,
                ..self
            },
            Transition::Deny => Record { status: StarboardStatus::Denied, ..self },
        }
    }
}

impl View for StarboardMessage {
    type V = Record;

    open spec fn view(&self) -> Record {
        Record {
            id: self.id,
            user_id: self.user_id.0,
            username: self.username@,
            avatar_url: self.avatar_url.deep_view(),
            content: self.content@,
            channel_id: self.channel_id.0,
            message_id: self.message_id.0,
            attachment_urls: self.attachment_urls.deep_view(),
            star_count: self.star_count,
            status: self.starboard_status,
            starboard_message_id: self.starboard_message_id.0,
            starboard_message_channel: self.starboard_message_channel.0,
            reply_message_id: self.reply_message_id.number(),
            reply_username: self.reply_username.deep_view(),
            forwarded: self.forwarded,
        }
    }
}

/// What a record that may be missing says.
pub open spec fn record_of(found: Option<StarboardMessage>) -> Option<Record> {
    match found {
        Some(m) => Some(m@),
        None => None,
    }
}

/// What a list of records says, record by record.
pub open spec fn records(list: Seq<StarboardMessage>) -> Seq<Record> {
    list.map_values(|m: StarboardMessage| m@)
}

fn copy_text(text: &Option<String>) -> (r: Option<String>)
    ensures
        r.deep_view() == text.deep_view(),
{
    match text {
        Some(s) => Some(s.clone()),
        None => None,
    }
}

fn copy_texts(texts: &Vec<String>) -> (r: Vec<String>)
    ensures
        r.deep_view() == texts.deep_view(),
{
    let mut r: Vec<String> = Vec::new();
    let mut i: usize = 0;
    while i < texts.len()
        invariant
            i <= texts.len(),
            r.len() == i,
            forall|j: int| 0 <= j < i ==> r[j]@ == texts[j]@,
        decreases texts.len() - i,
    {
        r.push(texts[i].clone());
        i += 1;
    }
    r
}

impl Clone for StarboardMessage {
    fn clone(&self) -> (r: Self)
        ensures
            r@ == self@,
    {
        StarboardMessage {
            id: self.id,
            user_id: self.user_id,
            username: self.username.clone(),
            avatar_url: copy_text(&self.avatar_url),
            content: self.content.clone(),
            channel_id: self.channel_id,
            message_id: self.message_id,
            attachment_urls: copy_texts(&self.attachment_urls),
            star_count: self.star_count,
            starboard_status: self.starboard_status,
            starboard_message_id: self.starboard_message_id,
            starboard_message_channel: self.starboard_message_channel,
            reply_message_id: self.reply_message_id,
            reply_username: copy_text(&self.reply_username),
            forwarded: self.forwarded,
        }
    }
}

impl StarboardMessage {
    /// Whether the record counts for the rule that a message has one record.
    pub fn is_active(&self) -> (r: bool)
        ensures
            r == self@.active(),
    {
        match self.starboard_status {
            StarboardStatus::Denied => false,
            _ => true,
        }
    }

    /// Whether the record has no fewer than no stars, as every stored
    /// record must.
    pub fn has_valid_stars(&self) -> (r: bool)
        ensures
            r == (self@.star_count >= 0),
    {
        self.star_count >= 0
    }

    /// Rules on a new number of stars for the record: one whose review is
    /// over keeps its stars, and no record loses any.
    pub fn check_star_count(&self, count: i16) -> (r: Result<(), StarboardError>)
        ensures
            r == if self@.takes_star_count(count) {
                Ok::<(), StarboardError>(())
            } else {
                Err::<(), StarboardError>(StarboardError::IllegalTransition)
            },
    {
        if self.starboard_status.is_terminal() || count < self.star_count {
            Err(StarboardError::IllegalTransition)
        } else {
            Ok(())
        }
    }

    /// The posting under which the record stands.
    pub fn posting(&self) -> (p: Posting)
        ensures
            p.message_id.0 == self@.starboard_message_id,
            p.channel_id.0 == self@.starboard_message_channel,
    {
        Posting { message_id: self.starboard_message_id, channel_id: self.starboard_message_channel }
    }

    /// Carries out the legal change `t` on the record.
    pub fn apply(&mut self, t: Transition)
        ensures
            final(self)@ == old(self)@.after(t),
    {
        match t {
            Transition::Accept(p) => {
                self.starboard_status = StarboardStatus::Accepted;
                self.starboard_message_id = p.message_id;
                self.starboard_message_channel = p.channel_id;
            },
            Transition::Deny => {
                self.starboard_status = StarboardStatus::Denied;
            },
        }
    }
}

} // verus!
