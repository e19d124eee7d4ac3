//! What the library takes without proof from the handling of text by the
//! standard library and by the crates that read text for it: each function
//! here makes its call and states what the call returns.

use vstd::prelude::*;

verus! {

/// The text `text` with every letter in lower case, as `str::to_lowercase` gives it.
pub uninterp spec fn lowercase_of(text: Seq<char>) -> Seq<char>;

/// The character that writes the digit `d`.
pub open spec fn digit_of(d: int) -> char {
    ((d + 48) as u8) as char
}

/// The number `n` in decimal digits: the digits of `n / 10`, where that is
/// not zero, followed by the digit `n % 10`.
pub open spec fn decimal_of(n: u64) -> Seq<char>
    decreases n,
{
    if n < 10 {
        seq![digit_of(n as int)]
    } else {
        decimal_of(n / 10).push(digit_of((n % 10) as int))
    }
}

/// `str::to_lowercase`: the result is a function of the text alone, the
/// Unicode lower case of each of its characters; the contract gives it the
/// name `lowercase_of` and says nothing more of it.
#[verifier::external_body]
pub(crate) fn to_lowercase(text: &str) -> (lowered: String)
    ensures
        lowered@ == lowercase_of(text@),
{
    text.to_lowercase()
}

/// `str::starts_with` with a string as its pattern: whether the characters
/// of `prefix` are the first characters of `text`.
#[verifier::external_body]
pub(crate) fn starts_with(text: &str, prefix: &str) -> (r: bool)
    ensures
        r == prefix@.is_prefix_of(text@),
{
    text.starts_with(prefix)
}

/// `u64::to_string`: the number in decimal digits, the most significant
/// first, with no sign and no leading zero; 0 is written "0".
#[verifier::external_body]
pub(crate) fn decimal(n: u64) -> (text: String)
    ensures
        text@ == decimal_of(n),
{
    n.to_string()
}

/// The number that the digits `digits` write, most significant first, if
/// every one of them is a digit and there is at least one.
pub open spec fn digits_value(digits: Seq<char>) -> Option<int>
    decreases digits.len(),
{
    if digits.len() == 0 {
        None
    } else if !('0' <= digits.last() <= '9') {
        None
    } else if digits.len() == 1 {
        Some(digits.last() as int - 48)
    } else {
        match digits_value(digits.drop_last()) {
            Some(front) => Some(front * 10 + (digits.last() as int - 48)),
            None => None,
        }
    }
}

/// The number that `text` writes as `str::parse::<u64>` reads it: digits
/// alone, or a plus sign and digits, that write a number of 64 bits.
pub open spec fn number_of(text: Seq<char>) -> Option<u64> {
    let digits = if text.len() > 0 && text[0] == '+' {
        text.drop_first()
    } else {
        text
    };
    match digits_value(digits) {
        Some(n) => if n <= u64::MAX {
            Some(n as u64)
        } else {
            None
        },
        None => None,
    }
}

/// What the regular expression `pattern` captures at its first match in
/// `text`, group by group, the whole match first, as `Regex::captures`
/// gives it; nothing where it matches nowhere or is no regular expression.
pub uninterp spec fn groups_of(pattern: Seq<char>, text: Seq<char>) -> Option<Seq<Option<Seq<char>>>>;

/// The emoji of Unicode that `text` is, in its fully qualified form, as
/// `emojis::get` gives it.
pub uninterp spec fn standard_emoji(text: Seq<char>) -> Option<Seq<char>>;

/// What a list of captured groups says.
pub open spec fn groups_view(groups: Option<Vec<Option<String>>>) -> Option<Seq<Option<Seq<char>>>> {
    match groups {
        Some(g) => Some(g.deep_view()),
        None => None,
    }
}

/// What a text that may be missing says.
pub open spec fn text_view(text: Option<&str>) -> Option<Seq<char>> {
    match text {
        Some(t) => Some(t@),
        None => None,
    }
}

/// `str::parse::<u64>`: the number that the text writes in decimal digits,
/// with or without a plus sign before them; nothing for an empty text, for
/// any other character, and for a number that 64 bits do not hold.
#[verifier::external_body]
pub(crate) fn parse_u64(text: &str) -> (number: Option<u64>)
    ensures
        number == number_of(text@),
{
    text.parse::<u64>().ok()
}

/// `Regex::new` and `Regex::captures`: the groups of the first match of
/// the pattern in the text. The result is a function of the two texts
/// alone; the contract gives it the name `groups_of` and says nothing more
/// of it.
#[verifier::external_body]
pub(crate) fn captures(pattern: &str, text: &str) -> (groups: Option<Vec<Option<String>>>)
    ensures
        groups_view(groups) == groups_of(pattern@, text@),
{
    match regex::Regex::new(pattern) {
        Ok(re) => re.captures(text).map(|c| c.iter().map(|m| m.map(|m| m.as_str().to_owned())).collect()),
        Err(_) => None,
    }
}

/// `emojis::get`: the emoji of Unicode that the text is. The result is a
/// function of the text alone; the contract gives it the name
/// `standard_emoji` and says nothing more of it.
#[verifier::external_body]
pub(crate) fn emoji_of(text: &str) -> (emoji: Option<&'static str>)
    ensures
        text_view(emoji) == standard_emoji(text@),
{
    emojis::get(text).map(|e| e.as_str())
}

/// Whether `c` is white space, as `char::is_whitespace` has it: a character
/// with the property White_Space of Unicode.
pub open spec fn is_space(c: char) -> bool {
    let n = c as u32;
    ||| 0x09 <= n <= 0x0d
    ||| n == 0x20
    ||| n == 0x85
    ||| n == 0xa0
    ||| n == 0x1680
    ||| 0x2000 <= n <= 0x200a
    ||| n == 0x2028
    ||| n == 0x2029
    ||| n == 0x202f
    ||| n == 0x205f
    ||| n == 0x3000
}

/// The word `word`, if it is not empty, as a list of one word.
pub open spec fn word_if_any(word: Seq<char>) -> Seq<Seq<char>> {
    if word.len() > 0 {
        seq![word]
    } else {
        Seq::empty()
    }
}

/// The words of `text` when the characters `word` have been read of a word
/// that is not yet at its end.
pub open spec fn words_after(text: Seq<char>, word: Seq<char>) -> Seq<Seq<char>>
    decreases text.len(),
{
    if text.len() == 0 {
        word_if_any(word)
    } else if is_space(text[0]) {
        word_if_any(word) + words_after(text.drop_first(), Seq::empty())
    } else {
        words_after(text.drop_first(), word.push(text[0]))
    }
}

/// The words of `text`: its longest runs of characters that are no white
/// space, in their order.
pub open spec fn words_of(text: Seq<char>) -> Seq<Seq<char>> {
    words_after(text, Seq::empty())
}

/// The text without the white space at its beginning and at its end.
pub open spec fn trimmed(text: Seq<char>) -> Seq<char>
    decreases text.len(),
{
    if text.len() == 0 {
        text
    } else if is_space(text[0]) {
        trimmed(text.drop_first())
    } else if is_space(text.last()) {
        trimmed(text.drop_last())
    } else {
        text
    }
}

/// The text behind the character `prefix` where `text` begins with it.
pub open spec fn stripped(text: Seq<char>, prefix: char) -> Option<Seq<char>> {
    if text.len() > 0 && text[0] == prefix {
        Some(text.drop_first())
    } else {
        None
    }
}

/// What a list of words says.
pub open spec fn words_view(words: Seq<&str>) -> Seq<Seq<char>> {
    words.map_values(|w: &str| w@)
}

/// `str::split_whitespace`, collected: the words of the text, which are
/// its longest runs of characters that are no white space.
#[verifier::external_body]
pub(crate) fn split_whitespace(text: &str) -> (words: Vec<&str>)
    ensures
        words_view(words@) == words_of(text@),
{
    text.split_whitespace().collect()
}

/// `str::trim`: the text without the white space at its beginning and at
/// its end.
#[verifier::external_body]
pub(crate) fn trim(text: &str) -> (r: &str)
    ensures
        r@ == trimmed(text@),
{
    text.trim()
}

/// `str::strip_prefix` with a character as its pattern: the text behind
/// the character where the text begins with it, and nothing where it does
/// not.
#[verifier::external_body]
pub(crate) fn strip_prefix(text: &str, prefix: char) -> (rest: Option<&str>)
    ensures
        text_view(rest) == stripped(text@, prefix),
{
    text.strip_prefix(prefix)
}

/// Whether `needle` stands somewhere in `text`.
pub open spec fn holds(text: Seq<char>, needle: Seq<char>) -> bool {
    exists|i: int| 0 <= i <= text.len() - needle.len() && #[trigger] text.subrange(i, i + needle.len()) == needle
}

/// The number, if it is not zero.
pub open spec fn not_zero(number: Option<u64>) -> Option<u64> {
    match number {
        Some(n) => if n != 0 {
            Some(n)
        } else {
            None
        },
        None => None,
    }
}

/// The user that a text mentions, as `serenity::utils::parse_user_mention`
/// reads a text of ASCII characters: behind `<@` or `<@!`, and before the
/// one character at the end, whatever it is, stands the user's number,
/// which is not zero; the text has four characters at least.
pub open spec fn mentioned_user(text: Seq<char>) -> Option<u64> {
    if text.len() < 4 {
        None
    } else if "<@!"@.is_prefix_of(text) {
        not_zero(number_of(text.subrange(3, text.len() - 1)))
    } else if "<@"@.is_prefix_of(text) {
        not_zero(number_of(text.subrange(2, text.len() - 1)))
    } else {
        None
    }
}

/// What the groups of every match say.
pub open spec fn matches_view(matches: Seq<Vec<Option<String>>>) -> Seq<Seq<Option<Seq<char>>>> {
    matches.map_values(|g: Vec<Option<String>>| g.deep_view())
}

/// What the regular expression `pattern` captures at each of its matches
/// in `text`, one after the other without overlap, as `Regex::captures_iter`
/// gives it; nothing where it is no regular expression.
pub uninterp spec fn all_groups_of(pattern: Seq<char>, text: Seq<char>) -> Seq<Seq<Option<Seq<char>>>>;

/// The extended grapheme clusters of `text`, as
/// `UnicodeSegmentation::graphemes` gives them.
pub uninterp spec fn graphemes_of(text: Seq<char>) -> Seq<Seq<char>>;

/// `str::contains` with a string as its pattern: whether the characters of
/// `needle` stand somewhere in `text`.
#[verifier::external_body]
pub(crate) fn contains(text: &str, needle: &str) -> (r: bool)
    ensures
        r == holds(text@, needle@),
{
    text.contains(needle)
}

/// `str::ends_with` with a string as its pattern: whether the characters
/// of `suffix` are the last characters of `text`.
#[verifier::external_body]
pub(crate) fn ends_with(text: &str, suffix: &str) -> (r: bool)
    ensures
        r == suffix@.is_suffix_of(text@),
{
    text.ends_with(suffix)
}

/// `serenity::utils::parse_user_mention`: the user that the text mentions.
/// On a text whose last character takes more than one byte it panics, so
/// only texts of ASCII characters are handed to it.
#[verifier::external_body]
pub(crate) fn parse_user_mention(text: &str) -> (user: Option<u64>)
    requires
        text.is_ascii(),
    ensures
        user == mentioned_user(text@),
{
    serenity::utils::parse_user_mention(text).map(|id| id.get())
}

/// `Regex::new` and `Regex::captures_iter`: the groups of every match of
/// the pattern in the text. The result is a function of the two texts
/// alone; the contract gives it the name `all_groups_of` and says nothing
/// more of it.
#[verifier::external_body]
pub(crate) fn captures_iter(pattern: &str, text: &str) -> (matches: Vec<Vec<Option<String>>>)
    ensures
        matches_view(matches@) == all_groups_of(pattern@, text@),
{
    match regex::Regex::new(pattern) {
        Ok(re) => re
            .captures_iter(text)
            .map(|c| c.iter().map(|m| m.map(|m| m.as_str().to_owned())).collect())
            .collect(),
        Err(_) => Vec::new(),
    }
}

/// `UnicodeSegmentation::graphemes` with extended clusters, collected. The
/// result is a function of the text alone; the contract gives it the name
/// `graphemes_of` and says nothing more of it.
#[verifier::external_body]
pub(crate) fn graphemes(text: &str) -> (clusters: Vec<&str>)
    ensures
        words_view(clusters@) == graphemes_of(text@),
{
    unicode_segmentation::UnicodeSegmentation::graphemes(text, true).collect()
}

} // verus!
