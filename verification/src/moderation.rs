//! The command that cleans a channel up: what it is asked to look for.

use vstd::prelude::*;
use vstd::utf8::decode_utf8;
use vstd::utf8::encode_utf8;
use vstd::utf8::encode_utf8_decode_utf8;
use vstd::utf8::is_char_boundary;
use vstd::utf8::is_ascii_chars;
use crate::text::contains;
use crate::text::ends_with;
use crate::text::holds;
use crate::text::mentioned_user;
use crate::text::parse_user_mention;
use crate::text::split_whitespace;
use crate::text::starts_with;
use crate::text::strip_prefix;
use crate::text::trim;
use crate::text::trimmed;
use crate::text::words_of;
use crate::text::words_view;

verus! {

/// What messages are picked by.
#[derive(Clone, Copy, Debug, PartialEq, Eq, Structural)]
pub enum Modifier {
    User,
    Match,
    StartsWith,
    EndsWith,
    Links,
    Invites,
    Images,
}

/// One thing that the command is asked to look for.
#[derive(Debug)]
pub struct ModifierGroup<'a> {
    pub modifier: Modifier,
    /// What stands behind the modifier, without white space around it.
    pub content: &'a str,
    pub negated: bool,
}

/// One thing that the command is asked to look for, as plain values.
pub struct GroupView {
    pub modifier: Modifier,
    pub content: Seq<char>,
    pub negated: bool,
}

impl<'a> View for ModifierGroup<'a> {
    type V = GroupView;

    open spec fn view(&self) -> GroupView {
        GroupView { modifier: self.modifier, content: self.content@, negated: self.negated }
    }
}

/// What a list of groups says.
pub open spec fn groups_view(groups: Seq<ModifierGroup>) -> Seq<GroupView> {
    groups.map_values(|g: ModifierGroup| g@)
}

/// Whether the word begins with the mark that negates it.
pub open spec fn negates(word: Seq<char>) -> bool {
    word.len() > 0 && word[0] == '!'
}

/// The word without the mark that negates it.
pub open spec fn bare(word: Seq<char>) -> Seq<char> {
    if negates(word) {
        word.drop_first()
    } else {
        word
    }
}

/// The modifier that a bare word names, if it names one.
pub open spec fn modifier_of(word: Seq<char>) -> Option<Modifier> {
    if word == "images"@ {
        Some(Modifier::Images)
    } else if word == "links"@ {
        Some(Modifier::Links)
    } else if word == "user"@ {
        Some(Modifier::User)
    } else if word == "invites"@ {
        Some(Modifier::Invites)
    } else {
        None
    }
}

/// The text that the bytes from `from` up to `to` write, if they can be
/// cut out: the two places must be in this order, within the bytes, and at
/// the beginning of a character or at the end.
pub open spec fn cut(bytes: Seq<u8>, from: int, to: int) -> Option<Seq<char>> {
    if 0 <= from <= to <= bytes.len() && is_char_boundary(bytes, to) && is_char_boundary(bytes.subrange(0, to), from) {
        Some(decode_utf8(bytes.subrange(from, to)))
    } else {
        None
    }
}

/// How far the reading of a command has come.
pub struct Reading {
    /// The groups that are complete.
    pub groups: Seq<GroupView>,
    /// The modifier of the group that is being read.
    pub current: Option<Modifier>,
    /// The place from which the content of that group is cut.
    pub start: int,
    /// Whether the word read last was negated.
    pub negated: bool,
}

/// The reading after the word numbered `index` was read. A word that
/// names a modifier ends the group that is being read, whose content is cut
/// out of the command from where the group began up to the place `index`,
/// and begins a group whose content begins behind the place
/// `index` and the length of the word and one more. Where the content
/// cannot be cut out, or the new place is no number of the machine, nothing
/// can be read.
pub open spec fn read_word(bytes: Seq<u8>, reading: Reading, index: int, word: Seq<char>) -> Option<Reading> {
    match modifier_of(bare(word)) {
        None => Some(Reading { negated: negates(word), ..reading }),
        Some(modifier) => {
            let start = index + encode_utf8(bare(word)).len() + 1;
            if start > usize::MAX {
                None
            } else {
                match reading.current {
                    None => Some(
                        Reading { groups: reading.groups, current: Some(modifier), start, negated: negates(word) },
                    ),
                    Some(current) => match cut(bytes, reading.start, index) {
                        None => None,
                        Some(text) => Some(
                            Reading {
                                groups: reading.groups.push(
                                    GroupView { modifier: current, content: trimmed(text), negated: reading.negated },
                                ),
                                current: Some(modifier),
                                start,
                                negated: negates(word),
                            },
                        ),
                    },
                }
            }
        },
    }
}

/// The reading after the first `n` of `words` were read.
pub open spec fn read_words(bytes: Seq<u8>, words: Seq<Seq<char>>, n: int) -> Option<Reading>
    decreases n,
{
    if n <= 0 {
        Some(Reading { groups: Seq::empty(), current: None, start: 0, negated: false })
    } else {
        match read_words(bytes, words, n - 1) {
            Some(reading) => read_word(bytes, reading, n - 1, words[n - 1]),
            None => None,
        }
    }
}

/// The groups of a command, if they can be read: the groups that were
/// complete when the last word was read, and the group that was being read,
/// whose content is cut out of the command up to its end.
pub open spec fn parsed(text: Seq<char>) -> Option<Seq<GroupView>> {
    let bytes = encode_utf8(text);
    match read_words(bytes, words_of(text), words_of(text).len() as int) {
        None => None,
        Some(reading) => match reading.current {
            None => Some(reading.groups),
            Some(current) => match cut(bytes, reading.start, bytes.len() as int) {
                None => None,
                Some(rest) => Some(
                    reading.groups.push(
                        GroupView { modifier: current, content: trimmed(rest), negated: reading.negated },
                    ),
                ),
            },
        },
    }
}

/// Once nothing can be read, nothing can be read of more words either.
pub proof fn lemma_reading_stays_lost(bytes: Seq<u8>, words: Seq<Seq<char>>, k: int, n: int)
    requires
        0 <= k <= n,
        read_words(bytes, words, k).is_none(),
    ensures
        read_words(bytes, words, n).is_none(),
    decreases n - k,
{
    if k < n {
        lemma_reading_stays_lost(bytes, words, k, n - 1);
    }
}

/// The modifier that a bare word names, if it names one.
pub fn modifier_named(word: &str) -> (r: Option<Modifier>)
    ensures
        r == modifier_of(word@),
{
    let given = word.to_owned();
    if given == "images".to_owned() {
        Some(Modifier::Images)
    } else if given == "links".to_owned() {
        Some(Modifier::Links)
    } else if given == "user".to_owned() {
        Some(Modifier::User)
    } else if given == "invites".to_owned() {
        Some(Modifier::Invites)
    } else {
        None
    }
}

/// Cuts the text from the byte `from` up to the byte `to` out of `text`,
/// if it can be cut out.
pub fn cut_text<'a>(text: &'a str, from: usize, to: usize) -> (r: Option<&'a str>)
    ensures
        match r {
            Some(piece) => cut(encode_utf8(text@), from as int, to as int) == Some(piece@),
            None => cut(encode_utf8(text@), from as int, to as int).is_none(),
        },
{
    if from > to || to > text.as_bytes().len() {
        return None;
    }
    if !text.is_char_boundary(to) {
        return None;
    }
    let (head, _) = text.split_at(to);
    if !head.is_char_boundary(from) {
        return None;
    }
    let (_, piece) = head.split_at(from);
    proof {
        assert(encode_utf8(head@) == encode_utf8(text@).subrange(0, to as int));
        assert(encode_utf8(piece@) =~= encode_utf8(text@).subrange(from as int, to as int));
        encode_utf8_decode_utf8(piece@);
    }
    Some(piece)
}

/// Reads what the command is asked to look for, if it can be read.
pub fn try_parse_command(command: &str) -> (r: Option<Vec<ModifierGroup<'_>>>)
    ensures
        match r {
            Some(groups) => parsed(command@) == Some(groups_view(groups@)),
            None => parsed(command@).is_none(),
        },
{
    let words = split_whitespace(command);
    let ghost bytes = encode_utf8(command@);
    let ghost all = words_of(command@);
    let mut result: Vec<ModifierGroup<'_>> = Vec::new();
    let mut current_modifier: Option<Modifier> = None;
    let mut current_start: usize = 0;
    let mut is_negated = false;
    let mut index: usize = 0;
    assert(groups_view(result@) =~= Seq::<GroupView>::empty());
    while index < words.len()
        invariant
            index <= words.len(),
            all.len() == words@.len(),
            bytes == encode_utf8(command@),
            all == words_of(command@),
            words_view(words@) == all,
            read_words(bytes, all, index as int) == Some(
                Reading {
                    groups: groups_view(result@),
                    current: current_modifier,
                    start: current_start as int,
                    negated: is_negated,
                },
            ),
        decreases words.len() - index,
    {
        let word = words[index];
        assert(all[index as int] == word@);
        let (is_negated_next, stripped_word) = match strip_prefix(word, '!') {
            Some(stripped) => (true, stripped),
            None => (false, word),
        };
        assert(stripped_word@ == bare(word@) && is_negated_next == negates(word@));
        match modifier_named(stripped_word) {
            Some(modifier) => {
                let length = stripped_word.as_bytes().len();
                assert(length == encode_utf8(bare(word@)).len());
                if length >= usize::MAX - index {
                    proof {
                        assert(read_words(bytes, all, index + 1).is_none());
                        lemma_reading_stays_lost(bytes, all, index + 1, all.len() as int);
                    }
                    return None;
                }
                if let Some(finished) = current_modifier {
                    match cut_text(command, current_start, index) {
                        Some(content) => {
                            let group = ModifierGroup { modifier: finished, content: trim(content), negated: is_negated };
                            assert(groups_view(result@.push(group)) =~= groups_view(result@).push(group@));
                            result.push(group);
                        },
                        None => {
                            proof {
                                assert(read_words(bytes, all, index + 1).is_none());
                                lemma_reading_stays_lost(bytes, all, index + 1, all.len() as int);
                            }
                            return None;
                        },
                    }
                }
                current_modifier = Some(modifier);
                current_start = index + length + 1;
            },
            None => {},
        }
        is_negated = is_negated_next;
        index += 1;
    }
    assert(all.len() == words@.len());
    if let Some(modifier) = current_modifier {
        match cut_text(command, current_start, command.as_bytes().len()) {
            Some(rest) => {
                let group = ModifierGroup { modifier, content: trim(rest), negated: is_negated };
                assert(groups_view(result@.push(group)) =~= groups_view(result@).push(group@));
                result.push(group);
            },
            None => {
                return None;
            },
        }
    }
    Some(result)
}

/// Reads what the command is asked to look for. A command whose groups
/// cannot be cut out of it cannot be read.
pub fn parse_command(command: &str) -> (groups: Vec<ModifierGroup<'_>>)
    requires
        parsed(command@).is_some(),
    ensures
        parsed(command@) == Some(groups_view(groups@)),
{
    match try_parse_command(command) {
        Some(groups) => groups,
        None => Vec::new(),
    }
}

/// The one user who may clean a channel up.
pub const PURGE_USER: u64 = 158567567487795200;

/// Whether the user may clean a channel up.
pub fn may_purge(author: u64) -> (r: bool)
    ensures
        r == (author == PURGE_USER),
{
    author == PURGE_USER
}

/// Whether so many messages can be asked for at once: two at least, a
/// hundred at most.
pub fn purge_limit_ok(limit: u8) -> (r: bool)
    ensures
        r == (2 <= limit <= 100),
{
    2 <= limit && limit <= 100
}

/// What the command needs to know of a message.
#[derive(Debug)]
pub struct PurgeMessage {
    pub id: u64,
    pub author: u64,
    pub content: String,
}

/// What the command needs to know of a message, as plain values.
pub struct PurgeMessageView {
    pub id: u64,
    pub author: u64,
    pub content: Seq<char>,
}

impl View for PurgeMessage {
    type V = PurgeMessageView;

    open spec fn view(&self) -> PurgeMessageView {
        PurgeMessageView { id: self.id, author: self.author, content: self.content@ }
    }
}

/// What a list of messages says.
pub open spec fn messages_view(messages: Seq<PurgeMessage>) -> Seq<PurgeMessageView> {
    messages.map_values(|m: PurgeMessage| m@)
}

/// Why nothing was picked.
#[derive(Clone, Copy, Debug, PartialEq, Eq, Structural)]
pub enum PurgeError {
    /// A group asks for a user and names none.
    CannotParseUsers,
}

/// The user that the content of a group names: the one that it mentions,
/// if it is written in ASCII characters.
pub open spec fn user_named(content: Seq<char>) -> Option<u64> {
    if is_ascii_chars(content) {
        mentioned_user(content)
    } else {
        None
    }
}

/// Whether the group picks the message: by its author, or by what its text
/// holds, begins with or ends with. Links, invites and images pick nothing.
pub open spec fn picks(group: GroupView, message: PurgeMessageView) -> bool {
    match group.modifier {
        Modifier::User => user_named(group.content) == Some(message.author),
        Modifier::Match => holds(message.content, group.content),
        Modifier::StartsWith => group.content.is_prefix_of(message.content),
        Modifier::EndsWith => group.content.is_suffix_of(message.content),
        Modifier::Links => false,
        Modifier::Invites => false,
        Modifier::Images => false,
    }
}

/// Whether one of the first `n` groups picks the message.
pub open spec fn picked(groups: Seq<GroupView>, n: int, message: PurgeMessageView) -> bool {
    exists|i: int| 0 <= i < n && picks(#[trigger] groups[i], message)
}

/// Whether one of the first `n` groups asks for a user and names none.
pub open spec fn names_no_user(groups: Seq<GroupView>, n: int) -> bool {
    exists|i: int| 0 <= i < n && (#[trigger] groups[i]).modifier == Modifier::User && user_named(groups[i].content).is_none()
}

/// The messages that one of the groups picks, by their identifiers, in the
/// order of the messages.
pub open spec fn selection(messages: Seq<PurgeMessageView>, groups: Seq<GroupView>) -> Seq<u64>
    decreases messages.len(),
{
    if messages.len() == 0 {
        Seq::empty()
    } else if picked(groups, groups.len() as int, messages.last()) {
        selection(messages.drop_last(), groups).push(messages.last().id)
    } else {
        selection(messages.drop_last(), groups)
    }
}

/// The user that the content of a group names.
pub fn user_of(content: &str) -> (user: Option<u64>)
    ensures
        user == user_named(content@),
{
    if content.is_ascii() {
        parse_user_mention(content)
    } else {
        None
    }
}

/// Whether the group picks the message.
pub fn group_picks(group: &ModifierGroup, message: &PurgeMessage) -> (r: bool)
    ensures
        r == picks(group@, message@),
{
    match group.modifier {
        Modifier::User => match user_of(group.content) {
            Some(user) => user == message.author,
            None => false,
        },
        Modifier::Match => contains(message.content.as_str(), group.content),
        Modifier::StartsWith => starts_with(message.content.as_str(), group.content),
        Modifier::EndsWith => ends_with(message.content.as_str(), group.content),
        Modifier::Links => false,
        Modifier::Invites => false,
        Modifier::Images => false,
    }
}

/// Picks the messages that the groups ask for. Where a group asks for a
/// user and names none, nothing is picked.
pub fn select_messages(messages: &Vec<PurgeMessage>, groups: &Vec<ModifierGroup>) -> (r: Result<
    Vec<u64>,
    PurgeError,
>)
    ensures
        match r {
            Ok(ids) => !names_no_user(groups_view(groups@), groups@.len() as int) && ids@ == selection(
                messages_view(messages@),
                groups_view(groups@),
            ),
            Err(_) => names_no_user(groups_view(groups@), groups@.len() as int),
        },
{
    let ghost gv = groups_view(groups@);
    let ghost mv = messages_view(messages@);
    let mut k: usize = 0;
    while k < groups.len()
        invariant
            k <= groups.len(),
            gv == groups_view(groups@),
            !names_no_user(gv, k as int),
        decreases groups.len() - k,
    {
        assert(gv[k as int] == groups[k as int]@);
        match groups[k].modifier {
            Modifier::User => {
                if user_of(groups[k].content).is_none() {
                    return Err(PurgeError::CannotParseUsers);
                }
            },
            _ => {},
        }
        k += 1;
    }
    let mut ids: Vec<u64> = Vec::new();
    let mut i: usize = 0;
    while i < messages.len()
        invariant
            i <= messages.len(),
            gv == groups_view(groups@),
            mv == messages_view(messages@),
            ids@ == selection(mv.take(i as int), gv),
        decreases messages.len() - i,
    {
        let mut found = false;
        let mut j: usize = 0;
        while j < groups.len()
            invariant
                j <= groups.len(),
                i < messages.len(),
                gv == groups_view(groups@),
                found == picked(gv, j as int, messages[i as int]@),
            decreases groups.len() - j,
        {
            assert(gv[j as int] == groups[j as int]@);
            if group_picks(&groups[j], &messages[i]) {
                found = true;
            }
            j += 1;
        }
        proof {
            assert(mv.take(i + 1).drop_last() =~= mv.take(i as int));
            assert(mv.take(i + 1).last() == messages[i as int]@);
        }
        if found {
            ids.push(messages[i].id);
        }
        i += 1;
    }
    proof {
        assert(mv.take(i as int) =~= mv);
    }
    Ok(ids)
}

} // verus!
