//! The emoji that a user asks about, and the ways in which emoji are used.

use vstd::prelude::*;
use crate::error::StarboardError;
use crate::text::decimal;
use crate::text::decimal_of;
use crate::text::all_groups_of;
use crate::text::captures;
use crate::text::captures_iter;
use crate::text::graphemes;
use crate::text::graphemes_of;
use crate::text::matches_view;
use crate::text::words_view;
use crate::text::emoji_of;
use crate::text::groups_of;
use crate::text::groups_view;
use crate::text::number_of;
use crate::text::parse_u64;
use crate::text::standard_emoji;
use crate::text::text_view;

verus! {

/// An emoji as a user names it.
#[derive(Debug)]
pub enum Expression<'a> {
    /// A custom emoji, with its identifier and its name.
    Emote((u64, String)),
    /// An emoji of Unicode.
    Standard(&'a str),
    /// A custom emoji by its identifier alone.
    Id(u64),
    /// A custom emoji by its name alone.
    Name(&'a str),
}

impl<'a> Expression<'a> {
    /// How the emoji is shown: by its name where it has one, else by its
    /// identifier in decimal digits.
    pub open spec fn shown(self) -> Seq<char> {
        match self {
            Expression::Id(id) => decimal_of(id),
            Expression::Name(name) => name@,
            Expression::Standard(name) => name@,
            Expression::Emote((_, name)) => name@,
        }
    }

    /// How the emoji is shown.
    pub fn to_text(&self) -> (text: String)
        ensures
            text@ == self.shown(),
    {
        match self {
            Expression::Id(id) => decimal(*id),
            Expression::Name(name) => (*name).to_owned(),
            Expression::Standard(name) => (*name).to_owned(),
            Expression::Emote((_, name)) => name.clone(),
        }
    }
}

/// What an emoji as a user names it says.
pub enum ExpressionView {
    Emote(u64, Seq<char>),
    Standard(Seq<char>),
    Id(u64),
    Name(Seq<char>),
}

impl<'a> View for Expression<'a> {
    type V = ExpressionView;

    open spec fn view(&self) -> ExpressionView {
        match self {
            Expression::Emote((id, name)) => ExpressionView::Emote(*id, name@),
            Expression::Standard(name) => ExpressionView::Standard(name@),
            Expression::Id(id) => ExpressionView::Id(*id),
            Expression::Name(name) => ExpressionView::Name(name@),
        }
    }
}

/// What an emoji that may be missing says.
pub open spec fn expression_view(e: Option<Expression>) -> Option<ExpressionView> {
    match e {
        Some(e) => Some(e@),
        None => None,
    }
}

/// Whether the groups are those of a custom emoji as it is written in a
/// message: the whole match, the mark of an animated one, the name, which
/// is there, and the identifier, which is there.
pub open spec fn emote_groups(groups: Seq<Option<Seq<char>>>) -> bool {
    groups.len() == 4 && groups[2].is_some() && groups[3].is_some()
}

/// The emoji that a text names. A text that holds a custom emoji as it is
/// written in a message names that emoji, unless its identifier is no
/// number of 64 bits, in which case it names none. Any other text names a
/// custom emoji by its identifier if it is a number, an emoji of Unicode
/// if it is one, and else a custom emoji by its name.
pub open spec fn expression_of(
    groups: Option<Seq<Option<Seq<char>>>>,
    standard: Option<Seq<char>>,
    text: Seq<char>,
) -> Option<ExpressionView> {
    match groups {
        Some(g) => match number_of(g[3].unwrap()) {
            Some(id) => Some(ExpressionView::Emote(id, g[2].unwrap())),
            None => None,
        },
        None => match number_of(text) {
            Some(id) => Some(ExpressionView::Id(id)),
            None => match standard {
                Some(emoji) => Some(ExpressionView::Standard(emoji)),
                None => Some(ExpressionView::Name(text)),
            },
        },
    }
}

/// The emoji that `emoji` names, given what the pattern of a custom emoji
/// captured in it and which emoji of Unicode it is.
pub fn expression_from<'a>(groups: Option<Vec<Option<String>>>, standard: Option<&'a str>, emoji: &'a str) -> (r:
    Option<Expression<'a>>)
    requires
        groups matches Some(g) ==> emote_groups(g.deep_view()),
    ensures
        expression_view(r) == expression_of(groups_view(groups), text_view(standard), emoji@),
{
    match groups {
        Some(g) => {
            assert(g.deep_view()[2] == g[2].deep_view() && g.deep_view()[3] == g[3].deep_view());
            let digits = match &g[3] {
                Some(d) => d,
                None => {
                    return None;
                },
            };
            let name = match &g[2] {
                Some(n) => n,
                None => {
                    return None;
                },
            };
            match parse_u64(digits.as_str()) {
                Some(id) => Some(Expression::Emote((id, name.clone()))),
                None => None,
            }
        },
        None => match parse_u64(emoji) {
            Some(id) => Some(Expression::Id(id)),
            None => match standard {
                Some(s) => Some(Expression::Standard(s)),
                None => Some(Expression::Name(emoji)),
            },
        },
    }
}

/// Whether the groups are those of a custom emoji as it is written in a
/// message.
pub fn are_emote_groups(groups: &Vec<Option<String>>) -> (r: bool)
    ensures
        r == emote_groups(groups.deep_view()),
{
    assert(groups.len() == 4 ==> groups.deep_view()[2] == groups[2].deep_view() && groups.deep_view()[3]
        == groups[3].deep_view());
    groups.len() == 4 && groups[2].is_some() && groups[3].is_some()
}

/// The emoji that `emoji` names. Where the pattern of a custom emoji
/// captures anything but the four groups of one, the text names none.
pub fn string_to_expression(emoji: &str) -> (r: Option<Expression<'_>>)
    ensures
        expression_view(r) == match groups_of("<(a)?:([a-zA-Z0-9_]{2,32}):(\\d{1,20})>"@, emoji@) {
            Some(g) => if emote_groups(g) {
                expression_of(Some(g), standard_emoji(emoji@), emoji@)
            } else {
                None
            },
            None => expression_of(None, standard_emoji(emoji@), emoji@),
        },
{
    let groups = captures("<(a)?:([a-zA-Z0-9_]{2,32}):(\\d{1,20})>", emoji);
    let shaped = match &groups {
        Some(g) => are_emote_groups(g),
        None => true,
    };
    if !shaped {
        return None;
    }
    let standard = emoji_of(emoji);
    expression_from(groups, standard, emoji)
}

/// The way in which an emoji was used.
#[derive(Clone, Copy, Debug, PartialEq, Eq, Structural)]
pub enum EmoteUsageType {
    Message,
    ReactionAdd,
    ReactionRemove,
}

/// The label under which the store keeps `usage`.
pub open spec fn label_of_usage(usage: EmoteUsageType) -> Seq<char> {
    match usage {
        EmoteUsageType::Message => "Message"@,
        EmoteUsageType::ReactionAdd => "ReactionAdd"@,
        EmoteUsageType::ReactionRemove => "ReactionRemove"@,
    }
}

/// The usage that the store's label `label` stands for, if it stands for one.
pub open spec fn usage_of_label(label: Seq<char>) -> Option<EmoteUsageType> {
    if label == "Message"@ {
        Some(EmoteUsageType::Message)
    } else if label == "ReactionAdd"@ {
        Some(EmoteUsageType::ReactionAdd)
    } else if label == "ReactionRemove"@ {
        Some(EmoteUsageType::ReactionRemove)
    } else {
        None
    }
}

impl EmoteUsageType {
    /// The label under which the store keeps this usage.
    pub fn label(&self) -> (label: &'static str)
        ensures
            label@ == label_of_usage(*self),
    {
        match self {
            EmoteUsageType::Message => "Message",
            EmoteUsageType::ReactionAdd => "ReactionAdd",
            EmoteUsageType::ReactionRemove => "ReactionRemove",
        }
    }

    /// Reads the store's label back. A label that stands for no usage is
    /// refused with `Decode`.
    pub fn from_label(label: &str) -> (r: Result<EmoteUsageType, StarboardError>)
        ensures
            r == match usage_of_label(label@) {
                Some(usage) => Ok::<EmoteUsageType, StarboardError>(usage),
                None => Err::<EmoteUsageType, StarboardError>(StarboardError::Decode),
            },
    {
        let given = label.to_owned();
        if given == "Message".to_owned() {
            Ok(EmoteUsageType::Message)
        } else if given == "ReactionAdd".to_owned() {
            Ok(EmoteUsageType::ReactionAdd)
        } else if given == "ReactionRemove".to_owned() {
            Ok(EmoteUsageType::ReactionRemove)
        } else {
            Err(StarboardError::Decode)
        }
    }
}

/// The store's labels and the usages correspond one to one.
pub proof fn lemma_usage_label_round_trip(usage: EmoteUsageType, label: Seq<char>)
    ensures
        usage_of_label(label_of_usage(usage)) == Some(usage),
        usage_of_label(label) == Some(usage) ==> label_of_usage(usage) == label,
{
    reveal_strlit("Message");
    reveal_strlit("ReactionAdd");
    reveal_strlit("ReactionRemove");
    assert("Message"@[0] == 'M');
    assert("ReactionAdd"@[8] == 'A');
    assert("ReactionRemove"@[8] == 'R');
}

/// A custom emoji that a message used.
#[derive(Debug)]
pub struct EmoteUse {
    pub name: String,
    pub id: u64,
}

/// A custom emoji that a message used, as plain values.
pub struct EmoteUseView {
    pub name: Seq<char>,
    pub id: u64,
}

impl View for EmoteUse {
    type V = EmoteUseView;

    open spec fn view(&self) -> EmoteUseView {
        EmoteUseView { name: self.name@, id: self.id }
    }
}

/// What a list of uses says.
pub open spec fn uses_view(uses: Seq<EmoteUse>) -> Seq<EmoteUseView> {
    uses.map_values(|u: EmoteUse| u@)
}

/// The uses that the first `n` matches give, of which no more than three
/// are looked at: a match gives a use if it has the four groups of a custom
/// emoji and its identifier is a number of 64 bits.
pub open spec fn emote_uses(matches: Seq<Seq<Option<Seq<char>>>>, n: int) -> Seq<EmoteUseView>
    decreases n,
{
    if n <= 0 {
        Seq::empty()
    } else if n > 3 || n > matches.len() {
        emote_uses(matches, n - 1)
    } else if emote_groups(matches[n - 1]) && number_of(matches[n - 1][3].unwrap()).is_some() {
        emote_uses(matches, n - 1).push(
            EmoteUseView { name: matches[n - 1][2].unwrap(), id: number_of(matches[n - 1][3].unwrap()).unwrap() },
        )
    } else {
        emote_uses(matches, n - 1)
    }
}

/// The emoji of Unicode among the first `n` clusters, of which no more
/// than three are taken.
pub open spec fn emoji_uses(clusters: Seq<Seq<char>>, n: int) -> Seq<Seq<char>>
    decreases n,
{
    if n <= 0 {
        Seq::empty()
    } else if n > clusters.len() {
        emoji_uses(clusters, n - 1)
    } else if emoji_uses(clusters, n - 1).len() < 3 && standard_emoji(clusters[n - 1]).is_some() {
        emoji_uses(clusters, n - 1).push(clusters[n - 1])
    } else {
        emoji_uses(clusters, n - 1)
    }
}

/// The custom emoji to be logged for a message, given every match of the
/// pattern of a custom emoji in it: those of the first three matches whose
/// identifier can be read.
pub fn emotes_from(matches: &Vec<Vec<Option<String>>>) -> (uses: Vec<EmoteUse>)
    ensures
        uses_view(uses@) == emote_uses(matches_view(matches@), matches@.len() as int),
{
    let ghost all = matches_view(matches@);
    let mut uses: Vec<EmoteUse> = Vec::new();
    let mut i: usize = 0;
    assert(uses_view(uses@) =~= Seq::<EmoteUseView>::empty());
    while i < matches.len() && i < 3
        invariant
            i <= matches.len(),
            i <= 3,
            all == matches_view(matches@),
            uses_view(uses@) == emote_uses(all, i as int),
        decreases matches.len() - i,
    {
        let groups = &matches[i];
        assert(all[i as int] == groups.deep_view());
        if are_emote_groups(groups) {
            assert(groups.deep_view()[2] == groups[2].deep_view() && groups.deep_view()[3] == groups[3].deep_view());
            match (&groups[2], &groups[3]) {
                (Some(name), Some(digits)) => {
                    match parse_u64(digits.as_str()) {
                        Some(id) => {
                            let used = EmoteUse { name: name.clone(), id };
                            assert(uses_view(uses@.push(used)) =~= uses_view(uses@).push(used@));
                            uses.push(used);
                        },
                        None => {},
                    }
                },
                _ => {},
            }
        }
        i += 1;
    }
    proof {
        lemma_emote_uses_stop(all, i as int, matches@.len() as int);
    }
    uses
}

/// Matches behind the third, and behind the last, give no use.
proof fn lemma_emote_uses_stop(matches: Seq<Seq<Option<Seq<char>>>>, i: int, n: int)
    requires
        0 <= i <= n,
        i == 3 || i == matches.len(),
        i <= 3,
        i <= matches.len(),
    ensures
        emote_uses(matches, n) == emote_uses(matches, i),
    decreases n - i,
{
    if i < n {
        lemma_emote_uses_stop(matches, i, n - 1);
    }
}

/// The custom emoji to be logged for a message.
pub fn emotes_in_msg(content: &str) -> (uses: Vec<EmoteUse>)
    ensures
        uses_view(uses@) == emote_uses(
            all_groups_of("<(a)?:([a-zA-Z0-9_]{2,32}):(\\d{1,20})>"@, content@),
            all_groups_of("<(a)?:([a-zA-Z0-9_]{2,32}):(\\d{1,20})>"@, content@).len() as int,
        ),
{
    let matches = captures_iter("<(a)?:([a-zA-Z0-9_]{2,32}):(\\d{1,20})>", content);
    emotes_from(&matches)
}

/// The emoji of Unicode to be logged for a message: the first three of its
/// clusters that are one.
pub fn get_emojis_in_msg(msg: &str) -> (emojis: Vec<&str>)
    ensures
        words_view(emojis@) == emoji_uses(graphemes_of(msg@), graphemes_of(msg@).len() as int),
{
    let clusters = graphemes(msg);
    let ghost all = graphemes_of(msg@);
    let mut emojis: Vec<&str> = Vec::new();
    let mut i: usize = 0;
    assert(words_view(emojis@) =~= Seq::<Seq<char>>::empty());
    while i < clusters.len()
        invariant
            i <= clusters.len(),
            all == words_view(clusters@),
            words_view(emojis@) == emoji_uses(all, i as int),
        decreases clusters.len() - i,
    {
        assert(all[i as int] == clusters[i as int]@);
        if emojis.len() < 3 && emoji_of(clusters[i]).is_some() {
            assert(words_view(emojis@.push(clusters[i as int])) =~= words_view(emojis@).push(clusters[i as int]@));
            emojis.push(clusters[i]);
        }
        i += 1;
    }
    emojis
}

} // verus!
