//! The table of the bot's commands: the name each goes by, its aliases, its
//! category, and whether only the owners of the framework may call it.

use vstd::prelude::*;
use crate::commands::command_views;
use crate::commands::CommandInfo;
use crate::commands::CommandView;

verus! {

/// The entry of one command.
pub open spec fn entry(name: Seq<char>, aliases: Seq<Seq<char>>, category: Option<Seq<char>>, owners_only: bool) -> CommandView {
    CommandView { name, aliases, category, owners_only }
}

fn no_alias() -> (aliases: Vec<String>)
    ensures
        aliases.deep_view() == Seq::<Seq<char>>::empty(),
{
    let aliases: Vec<String> = Vec::new();
    aliases
}

fn one_alias(a: &str) -> (aliases: Vec<String>)
    ensures
        aliases.deep_view() == seq![a@],
{
    let mut aliases: Vec<String> = Vec::new();
    aliases.push(a.to_owned());
    aliases
}

fn two_aliases(a: &str, b: &str) -> (aliases: Vec<String>)
    ensures
        aliases.deep_view() == seq![a@, b@],
{
    let mut aliases: Vec<String> = Vec::new();
    aliases.push(a.to_owned());
    aliases.push(b.to_owned());
    aliases
}

fn command(name: &str, aliases: Vec<String>, category: Option<&str>, owners_only: bool) -> (c: CommandInfo)
    ensures
        c@ == entry(
            name@,
            aliases.deep_view(),
            match category {
                Some(text) => Some(text@),
                None => None,
            },
            owners_only,
        ),
{
    let category = match category {
        Some(text) => Some(text.to_owned()),
        None => None,
    };
    CommandInfo { name: name.to_owned(), aliases, category, owners_only }
}

fn append(list: &mut Vec<CommandInfo>, more: Vec<CommandInfo>)
    ensures
        command_views(final(list)@) == command_views(old(list)@) + command_views(more@),
{
    let mut more = more;
    list.append(&mut more);
}

/// The commands about the bot itself.
pub open spec fn meta_table() -> Seq<CommandView> {
    seq![
        entry("uptime"@, Seq::<Seq<char>>::empty(), Some("Meta"@), false),
        entry("source"@, Seq::<Seq<char>>::empty(), Some("Meta"@), false),
        entry("ping"@, Seq::<Seq<char>>::empty(), Some("Meta"@), false),
        entry("register"@, Seq::<Seq<char>>::empty(), None, false),
        entry("stats"@, Seq::<Seq<char>>::empty(), None, false),
        entry("overwrite"@, seq!["overwrites"@], None, false),
        entry("find-overwrites"@, seq!["find-overwrite"@], None, false),
        entry("scawy"@, Seq::<Seq<char>>::empty(), None, false),
        entry("template"@, Seq::<Seq<char>>::empty(), None, false),
    ]
}

/// The commands about the bot itself.
pub fn meta_commands() -> (list: Vec<CommandInfo>)
    ensures
        command_views(list@) == meta_table(),
{
    let mut list: Vec<CommandInfo> = Vec::new();
    list.push(command("uptime", no_alias(), Some("Meta"), false));
    list.push(command("source", no_alias(), Some("Meta"), false));
    list.push(command("ping", no_alias(), Some("Meta"), false));
    list.push(command("register", no_alias(), None, false));
    list.push(command("stats", no_alias(), None, false));
    list.push(command("overwrite", one_alias("overwrites"), None, false));
    list.push(command("find-overwrites", one_alias("find-overwrite"), None, false));
    list.push(command("scawy", no_alias(), None, false));
    list.push(command("template", no_alias(), None, false));
    list
}

/// The commands of the owners and of the users they have handed commands to.
pub open spec fn owner_table() -> Seq<CommandView> {
    seq![
        entry("shutdown"@, seq!["kys"@], Some("Owner"@), true),
        entry("say"@, Seq::<Seq<char>>::empty(), Some("Owner - Say"@), false),
        entry("dm"@, Seq::<Seq<char>>::empty(), Some("Owner - Say"@), false),
        entry("react"@, Seq::<Seq<char>>::empty(), Some("Owner - Messages"@), false),
        entry("malloc_trim"@, Seq::<Seq<char>>::empty(), Some("Owner"@), true),
        entry("chunk-guild-members"@, Seq::<Seq<char>>::empty(), Some("Owner - Cache"@), false),
        entry("fw-commands"@, Seq::<Seq<char>>::empty(), Some("Owner - Commands"@), false),
        entry("sudo"@, Seq::<Seq<char>>::empty(), None, true),
        entry("analyze"@, Seq::<Seq<char>>::empty(), Some("Owner - Commands"@), false),
        entry("allow-owner-cmd"@, seq!["aoc"@], Some("Owner - Overrides"@), true),
        entry("deny-owner-cmd"@, seq!["doc"@], Some("Owner - Overrides"@), true),
        entry("owner-overrides"@, seq!["ownero"@], Some("Owner - Overrides"@), true),
        entry("allow_owner"@, seq!["ao"@], Some("Owner - Overrides"@), true),
        entry("deny_owner"@, seq!["do"@], Some("Owner - Overrides"@), true),
        entry("bot-ban"@, seq!["bb"@, "bban"@], Some("Owner - Ban"@), true),
        entry("bot-unban"@, seq!["bub"@, "bunban"@], Some("Owner - Ban"@), true),
        entry("status"@, Seq::<Seq<char>>::empty(), Some("Admin - Presence"@), false),
        entry("reset-presence"@, Seq::<Seq<char>>::empty(), Some("Admin - Presence"@), false),
        entry("set-activity"@, Seq::<Seq<char>>::empty(), Some("Admin - Presence"@), false),
    ]
}

/// The commands of the owners and of the users they have handed commands to.
pub fn owner_commands() -> (list: Vec<CommandInfo>)
    ensures
        command_views(list@) == owner_table(),
{
    let mut list: Vec<CommandInfo> = Vec::new();
    list.push(command("shutdown", one_alias("kys"), Some("Owner"), true));
    list.push(command("say", no_alias(), Some("Owner - Say"), false));
    list.push(command("dm", no_alias(), Some("Owner - Say"), false));
    list.push(command("react", no_alias(), Some("Owner - Messages"), false));
    list.push(command("malloc_trim", no_alias(), Some("Owner"), true));
    list.push(command("chunk-guild-members", no_alias(), Some("Owner - Cache"), false));
    list.push(command("fw-commands", no_alias(), Some("Owner - Commands"), false));
    list.push(command("sudo", no_alias(), None, true));
    list.push(command("analyze", no_alias(), Some("Owner - Commands"), false));
    list.push(command("allow-owner-cmd", one_alias("aoc"), Some("Owner - Overrides"), true));
    list.push(command("deny-owner-cmd", one_alias("doc"), Some("Owner - Overrides"), true));
    list.push(command("owner-overrides", one_alias("ownero"), Some("Owner - Overrides"), true));
    list.push(command("allow_owner", one_alias("ao"), Some("Owner - Overrides"), true));
    list.push(command("deny_owner", one_alias("do"), Some("Owner - Overrides"), true));
    list.push(command("bot-ban", two_aliases("bb", "bban"), Some("Owner - Ban"), true));
    list.push(command("bot-unban", two_aliases("bub", "bunban"), Some("Owner - Ban"), true));
    list.push(command("status", no_alias(), Some("Admin - Presence"), false));
    list.push(command("reset-presence", no_alias(), Some("Admin - Presence"), false));
    list.push(command("set-activity", no_alias(), Some("Admin - Presence"), false));
    list
}

/// The commands that look things up.
pub open spec fn utility_table() -> Seq<CommandView> {
    seq![
        entry("emoji-usage"@, Seq::<Seq<char>>::empty(), Some("Utility"@), false),
        entry("permissions"@, Seq::<Seq<char>>::empty(), Some("Utility"@), false),
        entry("choose"@, Seq::<Seq<char>>::empty(), Some("Utility"@), false),
        entry("statuses"@, Seq::<Seq<char>>::empty(), Some("Utility"@), false),
        entry("playing"@, Seq::<Seq<char>>::empty(), Some("Utility"@), false),
        entry("dm-activity-check"@, seq!["dm-activity"@], Some("Utility"@), false),
        entry("flag-lb"@, seq!["flagged-lb"@, "dm-activity-lb"@], Some("Utility"@), false),
        entry("get-member"@, Seq::<Seq<char>>::empty(), Some("Utility"@), false),
        entry("osu"@, Seq::<Seq<char>>::empty(), Some("Utility"@), false),
        entry("presence"@, Seq::<Seq<char>>::empty(), Some("Utility"@), false),
    ]
}

/// The commands that look things up.
pub fn utility_commands() -> (list: Vec<CommandInfo>)
    ensures
        command_views(list@) == utility_table(),
{
    let mut list: Vec<CommandInfo> = Vec::new();
    list.push(command("emoji-usage", no_alias(), Some("Utility"), false));
    list.push(command("permissions", no_alias(), Some("Utility"), false));
    list.push(command("choose", no_alias(), Some("Utility"), false));
    list.push(command("statuses", no_alias(), Some("Utility"), false));
    list.push(command("playing", no_alias(), Some("Utility"), false));
    list.push(command("dm-activity-check", one_alias("dm-activity"), Some("Utility"), false));
    list.push(command("flag-lb", two_aliases("flagged-lb", "dm-activity-lb"), Some("Utility"), false));
    list.push(command("get-member", no_alias(), Some("Utility"), false));
    list.push(command("osu", no_alias(), Some("Utility"), false));
    list.push(command("presence", no_alias(), Some("Utility"), false));
    list
}

/// The commands that clean up.
pub open spec fn moderation_table() -> Seq<CommandView> {
    seq![
        entry("purge"@, Seq::<Seq<char>>::empty(), Some("Moderation - Purge"@), false),
    ]
}

/// The commands that clean up.
pub fn moderation_commands() -> (list: Vec<CommandInfo>)
    ensures
        command_views(list@) == moderation_table(),
{
    let mut list: Vec<CommandInfo> = Vec::new();
    list.push(command("purge", no_alias(), Some("Moderation - Purge"), false));
    list
}

/// The two commands that answer with a picture.
pub open spec fn accela_table() -> Seq<CommandView> {
    seq![
        entry("talk"@, seq!["t"@, "talkmore"@], None, false),
        entry("play"@, seq!["p"@, "playmore"@], None, false),
    ]
}

/// The two commands that answer with a picture. They stand beside the
/// groups and are not among the commands that `commands` lists.
pub fn accela_commands() -> (list: Vec<CommandInfo>)
    ensures
        command_views(list@) == accela_table(),
{
    let mut list: Vec<CommandInfo> = Vec::new();
    list.push(command("talk", two_aliases("t", "talkmore"), None, false));
    list.push(command("play", two_aliases("p", "playmore"), None, false));
    assert(command_views(list@) =~= accela_table());
    list
}

/// Every command, group after group.
pub open spec fn command_table() -> Seq<CommandView> {
    meta_table() + owner_table() + utility_table() + moderation_table()
}

/// Every command, group after group.
#[must_use]
pub fn commands() -> (list: Vec<CommandInfo>)
    ensures
        command_views(list@) == command_table(),
{
    let mut list = meta_commands();
    append(&mut list, owner_commands());
    append(&mut list, utility_commands());
    append(&mut list, moderation_commands());
    list
}

} // verus!
