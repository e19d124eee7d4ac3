use moth::access::{BanList, Checks};
use moth::choices::{standby_outcome, AuthenticationStandbyError, OnlineStatus, OverwriteChoices, Waited};
use moth::expressions::{expression_from, string_to_expression, Expression};
use moth::flags::{get_flags_str, join_lines};
use moth::moderation::{cut_text, modifier_named, parse_command, try_parse_command, Modifier, ModifierGroup};
use moth::registry::accela_commands;

fn shown(e: Option<Expression<'_>>) -> String {
    format!("{e:?}")
}

fn groups(command: &str) -> Option<Vec<(Modifier, String, bool)>> {
    try_parse_command(command).map(|gs| gs.iter().map(|g| (g.modifier, g.content.to_string(), g.negated)).collect())
}

#[test]
fn ban_list_starts_with_the_banned_of_the_database() {
    let list = BanList::new(&vec![5, 9, 5]);
    assert!(list.is_banned(5));
    assert!(list.is_banned(9));
    assert!(!list.is_banned(6));
    assert!(!BanList::new(&vec![]).is_banned(5));
}

#[test]
fn set_banned_answers_the_old_status() {
    let mut list = BanList::new(&vec![]);
    assert!(!list.set_banned(5, true));
    assert!(list.is_banned(5));
    assert!(list.set_banned(5, true));
    assert!(list.is_banned(5));
    assert!(list.set_banned(5, false));
    assert!(!list.is_banned(5));
    assert!(!list.set_banned(5, false));
    assert!(!list.is_banned(5));
    assert!(!list.set_banned(6, false));
    assert!(!list.is_banned(6));
}

#[test]
fn owner_of_every_command_or_holder_of_the_command_may_use_it() {
    let mut checks = Checks::new(&vec![7]);
    assert!(checks.check_owner(7, false));
    assert!(checks.check_owner(7, true));
    assert!(checks.check_owner(8, true));
    assert!(!checks.check_owner(8, false));
    assert!(checks.is_owner(7));
    assert!(!checks.is_owner(8));
    assert!(!checks.set_owner(8));
    assert!(checks.set_owner(8));
    assert!(checks.check_owner(8, false));
    assert!(checks.remove_owner(7));
    assert!(!checks.remove_owner(7));
    assert!(!checks.check_owner(7, false));
    assert!(checks.is_owner(8));
}

#[test]
fn member_flags_are_named_one_on_a_line() {
    assert_eq!(get_flags_str(0), None);
    assert_eq!(get_flags_str(16), None);
    assert_eq!(get_flags_str(1), Some("DID_REJOIN".to_string()));
    assert_eq!(get_flags_str(8), Some("STARTED_ONBOARDING".to_string()));
    assert_eq!(get_flags_str(9), Some("DID_REJOIN\nSTARTED_ONBOARDING".to_string()));
    assert_eq!(get_flags_str(6 | 32), Some("COMPLETED_ONBOARDING\nBYPASSES_VERIFICATION".to_string()));
    assert_eq!(
        get_flags_str(u32::MAX),
        Some("DID_REJOIN\nCOMPLETED_ONBOARDING\nBYPASSES_VERIFICATION\nSTARTED_ONBOARDING".to_string())
    );
    assert_eq!(join_lines(&vec![]), "");
    assert_eq!(join_lines(&vec!["a"]), "a");
    assert_eq!(join_lines(&vec!["a", "", "b"]), "a\n\nb");
}

#[test]
fn overwrite_choice_mentions_a_user_or_a_role() {
    assert_eq!(OverwriteChoices::User.mention(158567567487795200), "<@158567567487795200>");
    assert_eq!(OverwriteChoices::Role.mention(98459030455853056), "<@&98459030455853056>");
    assert_eq!(OverwriteChoices::User.mention(0), "<@0>");
}

#[test]
fn online_status_has_its_word() {
    assert_eq!(OnlineStatus::Online.name(), "Online");
    assert_eq!(OnlineStatus::Idle.name(), "Idle");
    assert_eq!(OnlineStatus::DoNotDisturb.name(), "DoNotDisturb");
    assert_eq!(OnlineStatus::Invisible.name(), "Invisible");
}

#[test]
fn wait_for_authentication_ends_with_the_answer_or_the_reason() {
    assert_eq!(standby_outcome(Waited::<u32>::Pending), None);
    assert_eq!(standby_outcome(Waited::Answered(7u32)), Some(Ok(7)));
    assert_eq!(standby_outcome(Waited::<u32>::Dropped), Some(Err(AuthenticationStandbyError::Canceled)));
    assert_eq!(standby_outcome(Waited::<u32>::Elapsed), Some(Err(AuthenticationStandbyError::Timeout)));
}

#[test]
fn accela_has_its_two_commands() {
    let list = accela_commands();
    assert_eq!(list.len(), 2);
    assert_eq!(list[0].name, "talk");
    assert_eq!(list[0].aliases, vec!["t".to_string(), "talkmore".to_string()]);
    assert_eq!(list[1].name, "play");
    assert_eq!(list[1].aliases, vec!["p".to_string(), "playmore".to_string()]);
    assert!(list.iter().all(|c| c.category.is_none() && !c.owners_only));
}

#[test]
fn custom_emoji_in_a_message_is_an_emote() {
    assert_eq!(
        shown(string_to_expression("<:moth:123456789012345678>")),
        shown(Some(Expression::Emote((123456789012345678, "moth".to_string()))))
    );
    assert_eq!(
        shown(string_to_expression("<a:blob_cat:42>")),
        shown(Some(Expression::Emote((42, "blob_cat".to_string()))))
    );
    assert_eq!(
        shown(string_to_expression("look <:ab:1> here <:cd:2>")),
        shown(Some(Expression::Emote((1, "ab".to_string()))))
    );
}

#[test]
fn custom_emoji_with_too_large_an_identifier_is_none() {
    assert_eq!(shown(string_to_expression("<:moth:99999999999999999999>")), "None");
    assert_eq!(
        shown(string_to_expression("<:moth:18446744073709551615>")),
        shown(Some(Expression::Emote((u64::MAX, "moth".to_string()))))
    );
    assert_eq!(shown(string_to_expression("<:moth:18446744073709551616>")), "None");
}

#[test]
fn number_is_an_identifier() {
    assert_eq!(shown(string_to_expression("12345")), shown(Some(Expression::Id(12345))));
    assert_eq!(shown(string_to_expression("+5")), shown(Some(Expression::Id(5))));
    assert_eq!(shown(string_to_expression("007")), shown(Some(Expression::Id(7))));
    assert_eq!(shown(string_to_expression("18446744073709551615")), shown(Some(Expression::Id(u64::MAX))));
    assert_eq!(
        shown(string_to_expression("18446744073709551616")),
        shown(Some(Expression::Name("18446744073709551616")))
    );
    assert_eq!(shown(string_to_expression("-5")), shown(Some(Expression::Name("-5"))));
    assert_eq!(shown(string_to_expression("")), shown(Some(Expression::Name(""))));
    assert_eq!(shown(string_to_expression("+")), shown(Some(Expression::Name("+"))));
    assert_eq!(shown(string_to_expression("1 2")), shown(Some(Expression::Name("1 2"))));
}

#[test]
fn unicode_emoji_is_standard_and_anything_else_a_name() {
    assert_eq!(shown(string_to_expression("\u{1f680}")), shown(Some(Expression::Standard("\u{1f680}"))));
    assert_eq!(
        shown(string_to_expression("\u{1f43f}")),
        shown(Some(Expression::Standard("\u{1f43f}\u{fe0f}")))
    );
    assert_eq!(shown(string_to_expression("moth")), shown(Some(Expression::Name("moth"))));
    assert_eq!(shown(string_to_expression("<:a:1>")), shown(Some(Expression::Name("<:a:1>"))));
}

#[test]
fn expression_from_goes_by_what_it_is_given() {
    let g = Some(vec![Some("<:x:9>".to_string()), None, Some("x".to_string()), Some("9".to_string())]);
    assert_eq!(shown(expression_from(g, None, "whatever")), shown(Some(Expression::Emote((9, "x".to_string())))));
    let bad = Some(vec![Some("w".to_string()), None, Some("x".to_string()), Some("nine".to_string())]);
    assert_eq!(shown(expression_from(bad, Some("s"), "5")), "None");
    assert_eq!(shown(expression_from(None, Some("s"), "5")), shown(Some(Expression::Id(5))));
    assert_eq!(shown(expression_from(None, Some("s"), "five")), shown(Some(Expression::Standard("s"))));
    assert_eq!(shown(expression_from(None, None, "five")), shown(Some(Expression::Name("five"))));
}

#[test]
fn command_without_modifiers_has_no_groups() {
    assert_eq!(groups(""), Some(vec![]));
    assert_eq!(groups("hello   world"), Some(vec![]));
    assert_eq!(groups("!nothing here"), Some(vec![]));
    assert_eq!(groups("User Links"), Some(vec![]));
}

#[test]
fn one_modifier_takes_the_rest_of_the_command() {
    assert_eq!(groups("user <@123>"), Some(vec![(Modifier::User, "<@123>".to_string(), false)]));
    assert_eq!(groups("user   <@123>  "), Some(vec![(Modifier::User, "<@123>".to_string(), false)]));
    assert_eq!(groups("links "), Some(vec![(Modifier::Links, String::new(), false)]));
    assert_eq!(groups("invites a !b"), Some(vec![(Modifier::Invites, "a !b".to_string(), true)]));
    assert_eq!(groups("!images"), Some(vec![(Modifier::Images, String::new(), true)]));
}

#[test]
fn content_is_cut_by_the_number_of_the_word() {
    assert_eq!(
        groups("user a b c d links x"),
        Some(vec![(Modifier::User, String::new(), false), (Modifier::Links, "d links x".to_string(), false)])
    );
    assert_eq!(
        groups("user abcdefg hi j !k images"),
        Some(vec![(Modifier::User, String::new(), true), (Modifier::Images, "hi j !k images".to_string(), false)])
    );
}

#[test]
fn command_whose_groups_cannot_be_cut_out_cannot_be_read() {
    assert_eq!(groups("links"), None);
    assert_eq!(groups("user a user b"), None);
    assert_eq!(groups("images links"), None);
    assert_eq!(groups("user \u{e9}\u{e9} x"), Some(vec![(Modifier::User, "\u{e9}\u{e9} x".to_string(), false)]));
    assert_eq!(groups("x user \u{e9}\u{e9}"), Some(vec![(Modifier::User, "\u{e9}\u{e9}".to_string(), false)]));
    assert_eq!(groups("a\u{65e5}\u{672c} user"), None);
}

#[test]
fn parse_command_reads_what_can_be_read() {
    let parsed: Vec<ModifierGroup<'_>> = parse_command("x !user <@1>");
    assert_eq!(parsed.len(), 1);
    assert_eq!(parsed[0].modifier, Modifier::User);
    assert_eq!(parsed[0].content, "r <@1>");
    assert!(!parsed[0].negated);
    let both = parse_command("user <@1> x y !z links");
    assert_eq!(both.len(), 2);
    assert_eq!(both[0].content, "");
    assert!(both[0].negated);
    assert_eq!(both[1].modifier, Modifier::Links);
    assert_eq!(both[1].content, "y !z links");
    assert!(!both[1].negated);
}

#[test]
fn modifier_words_are_four() {
    assert_eq!(modifier_named("images"), Some(Modifier::Images));
    assert_eq!(modifier_named("links"), Some(Modifier::Links));
    assert_eq!(modifier_named("user"), Some(Modifier::User));
    assert_eq!(modifier_named("invites"), Some(Modifier::Invites));
    assert_eq!(modifier_named("match"), None);
    assert_eq!(modifier_named("!user"), None);
    assert_eq!(modifier_named(""), None);
}

#[test]
fn text_is_cut_at_character_boundaries_only() {
    assert_eq!(cut_text("h\u{e9}llo", 0, 1), Some("h"));
    assert_eq!(cut_text("h\u{e9}llo", 1, 3), Some("\u{e9}"));
    assert_eq!(cut_text("h\u{e9}llo", 1, 2), None);
    assert_eq!(cut_text("h\u{e9}llo", 2, 3), None);
    assert_eq!(cut_text("h\u{e9}llo", 3, 6), Some("llo"));
    assert_eq!(cut_text("h\u{e9}llo", 6, 6), Some(""));
    assert_eq!(cut_text("h\u{e9}llo", 6, 7), None);
    assert_eq!(cut_text("h\u{e9}llo", 4, 3), None);
    assert_eq!(cut_text("", 0, 0), Some(""));
}
