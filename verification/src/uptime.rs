//! How long the bot has been up, in words.

use vstd::prelude::*;
use crate::text::decimal;
use crate::text::decimal_of;

verus! {

/// A span of time in days, hours, minutes and seconds.
#[derive(Clone, Copy, Debug, PartialEq, Eq, Structural)]
pub struct Uptime {
    pub days: u64,
    pub hours: u64,
    pub minutes: u64,
    pub seconds: u64,
}

/// The span of `seconds` seconds: whole days, then the hours, minutes and
/// seconds that are left.
pub open spec fn uptime_of(seconds: u64) -> Uptime {
    Uptime {
        days: (seconds / 86400) as u64,
        hours: (seconds / 3600 % 24) as u64,
        minutes: (seconds / 60 % 60) as u64,
        seconds: (seconds % 60) as u64,
    }
}

/// The words for a span whose four numbers are written as the given texts.
pub open spec fn uptime_text(days: Seq<char>, hours: Seq<char>, minutes: Seq<char>, seconds: Seq<char>) -> Seq<
    char,
> {
    "`"@ + days + "d "@ + hours + "h "@ + minutes + "m "@ + seconds + "s`"@
}

/// Splits `seconds` seconds into days, hours, minutes and seconds.
pub fn split_uptime(seconds: u64) -> (u: Uptime)
    ensures
        u == uptime_of(seconds),
        u.hours < 24,
        u.minutes < 60,
        u.seconds < 60,
        u.days * 86400 + u.hours * 3600 + u.minutes * 60 + u.seconds == seconds,
{
    let minutes = seconds / 60;
    let hours = minutes / 60;
    let days = hours / 24;
    Uptime { days, hours: hours % 24, minutes: minutes % 60, seconds: seconds % 60 }
}

/// Puts the words for a span together from its four numbers as written.
pub fn join_uptime(days: &str, hours: &str, minutes: &str, seconds: &str) -> (text: String)
    ensures
        text@ == uptime_text(days@, hours@, minutes@, seconds@),
{
    let mut text = "`".to_owned();
    text.append(days);
    text.append("d ");
    text.append(hours);
    text.append("h ");
    text.append(minutes);
    text.append("m ");
    text.append(seconds);
    text.append("s`");
    text
}

/// The words for a span of `seconds` seconds.
pub fn uptime_str(seconds: u64) -> (text: String)
    ensures
        text@ == uptime_text(
            decimal_of(uptime_of(seconds).days),
            decimal_of(uptime_of(seconds).hours),
            decimal_of(uptime_of(seconds).minutes),
            decimal_of(uptime_of(seconds).seconds),
        ),
{
    let u = split_uptime(seconds);
    let days = decimal(u.days);
    let hours = decimal(u.hours);
    let minutes = decimal(u.minutes);
    let seconds = decimal(u.seconds);
    join_uptime(days.as_str(), hours.as_str(), minutes.as_str(), seconds.as_str())
}

} // verus!
