use moth::expressions::{emotes_from, emotes_in_msg, get_emojis_in_msg};
use moth::moderation::{
    group_picks, may_purge, purge_limit_ok, select_messages, try_parse_command, user_of, Modifier, ModifierGroup,
    PurgeError, PurgeMessage,
};

fn message(id: u64, author: u64, content: &str) -> PurgeMessage {
    PurgeMessage { id, author, content: content.to_string() }
}

fn channel() -> Vec<PurgeMessage> {
    vec![
        message(1, 10, "hello world"),
        message(2, 11, "world of moths"),
        message(3, 10, "a lamp"),
        message(4, 12, "hello lamp"),
    ]
}

fn group(modifier: Modifier, content: &str) -> ModifierGroup<'_> {
    ModifierGroup { modifier, content, negated: false }
}

#[test]
fn only_one_user_may_purge() {
    assert!(may_purge(158567567487795200));
    assert!(!may_purge(291089948709486593));
    assert!(!may_purge(0));
}

#[test]
fn purge_takes_two_to_a_hundred_messages() {
    assert!(!purge_limit_ok(0));
    assert!(!purge_limit_ok(1));
    assert!(purge_limit_ok(2));
    assert!(purge_limit_ok(100));
    assert!(!purge_limit_ok(101));
    assert!(!purge_limit_ok(255));
}

#[test]
fn user_mention_is_read_as_the_gateway_reads_it() {
    assert_eq!(user_of("<@10>"), Some(10));
    assert_eq!(user_of("<@!10>"), Some(10));
    assert_eq!(user_of("<@10x"), Some(10));
    assert_eq!(user_of("<@0>"), None);
    assert_eq!(user_of("<@>"), None);
    assert_eq!(user_of("<@1"), None);
    assert_eq!(user_of("<@1>"), Some(1));
    assert_eq!(user_of("<@!>"), None);
    assert_eq!(user_of("10"), None);
    assert_eq!(user_of("<#10>"), None);
    assert_eq!(user_of("<@18446744073709551615>"), Some(u64::MAX));
    assert_eq!(user_of("<@18446744073709551616>"), None);
    assert_eq!(user_of("<@10\u{e9}"), None);
    assert_eq!(user_of(""), None);
}

#[test]
fn user_group_picks_the_messages_of_the_user() {
    assert_eq!(select_messages(&channel(), &vec![group(Modifier::User, "<@10>")]), Ok(vec![1, 3]));
    assert_eq!(select_messages(&channel(), &vec![group(Modifier::User, "<@99>")]), Ok(vec![]));
}

#[test]
fn text_groups_pick_by_the_text() {
    assert_eq!(select_messages(&channel(), &vec![group(Modifier::Match, "lamp")]), Ok(vec![3, 4]));
    assert_eq!(select_messages(&channel(), &vec![group(Modifier::StartsWith, "hello")]), Ok(vec![1, 4]));
    assert_eq!(select_messages(&channel(), &vec![group(Modifier::EndsWith, "moths")]), Ok(vec![2]));
    assert_eq!(select_messages(&channel(), &vec![group(Modifier::Match, "")]), Ok(vec![1, 2, 3, 4]));
    assert_eq!(select_messages(&channel(), &vec![group(Modifier::Match, "Lamp")]), Ok(vec![]));
}

#[test]
fn links_invites_and_images_pick_nothing() {
    for modifier in [Modifier::Links, Modifier::Invites, Modifier::Images] {
        assert_eq!(select_messages(&channel(), &vec![group(modifier, "hello")]), Ok(vec![]));
        assert!(!group_picks(&group(modifier, ""), &message(1, 1, "")));
    }
}

#[test]
fn message_picked_by_two_groups_is_picked_once() {
    let groups = vec![group(Modifier::User, "<@10>"), group(Modifier::Match, "hello"), group(Modifier::Links, "")];
    assert_eq!(select_messages(&channel(), &groups), Ok(vec![1, 3, 4]));
    assert_eq!(select_messages(&channel(), &vec![]), Ok(vec![]));
    assert_eq!(select_messages(&vec![], &groups), Ok(vec![]));
}

#[test]
fn group_that_names_no_user_stops_the_purge() {
    let groups = vec![group(Modifier::Match, "hello"), group(Modifier::User, "someone")];
    assert_eq!(select_messages(&channel(), &groups), Err(PurgeError::CannotParseUsers));
    assert_eq!(select_messages(&vec![], &groups), Err(PurgeError::CannotParseUsers));
}

#[test]
fn parsed_command_picks_its_user() {
    let groups = try_parse_command("user <@11>").unwrap();
    assert_eq!(select_messages(&channel(), &groups), Ok(vec![2]));
}

#[test]
fn first_three_custom_emoji_are_logged() {
    let uses = emotes_in_msg("<:aa:1> text <a:bb:2><:cc:3> and <:dd:4>");
    assert_eq!(uses.iter().map(|u| (u.name.as_str(), u.id)).collect::<Vec<_>>(), vec![("aa", 1), ("bb", 2), ("cc", 3)]);
    assert!(emotes_in_msg("no emoji <:a:1> here").is_empty());
}

#[test]
fn custom_emoji_with_an_unreadable_identifier_is_skipped_but_counted() {
    let uses = emotes_in_msg("<:aa:99999999999999999999><:bb:2><:cc:3><:dd:4>");
    assert_eq!(uses.iter().map(|u| (u.name.as_str(), u.id)).collect::<Vec<_>>(), vec![("bb", 2), ("cc", 3)]);
}

#[test]
fn emotes_from_goes_by_the_matches_it_is_given() {
    let hit = |name: &str, id: &str| vec![Some(String::new()), None, Some(name.to_string()), Some(id.to_string())];
    let matches = vec![hit("a", "1"), vec![Some("odd".to_string())], hit("b", "x"), hit("c", "3")];
    let uses = emotes_from(&matches);
    assert_eq!(uses.iter().map(|u| (u.name.as_str(), u.id)).collect::<Vec<_>>(), vec![("a", 1)]);
    assert!(emotes_from(&vec![]).is_empty());
}

#[test]
fn first_three_unicode_emoji_are_logged() {
    assert_eq!(
        get_emojis_in_msg("a \u{1f680} b \u{1f98b}\u{1f680} c \u{2b50} \u{1f680}"),
        vec!["\u{1f680}", "\u{1f98b}", "\u{1f680}"]
    );
    assert!(get_emojis_in_msg("plain text 123").is_empty());
    assert_eq!(get_emojis_in_msg("\u{2b50}"), vec!["\u{2b50}"]);
}
