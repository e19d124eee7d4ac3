use moth::error::StarboardError;
use moth::expressions::{EmoteUsageType, Expression};
use moth::random::{choice_index, choose_one, gather_choices};
use moth::reply::{has_permissions, message_react, ChannelPermissions, ReplyChoice};
use moth::uptime::{join_uptime, split_uptime, uptime_str, Uptime};

#[test]
fn uptime_splits_into_days_hours_minutes_seconds() {
    assert_eq!(split_uptime(0), Uptime { days: 0, hours: 0, minutes: 0, seconds: 0 });
    assert_eq!(split_uptime(59), Uptime { days: 0, hours: 0, minutes: 0, seconds: 59 });
    assert_eq!(split_uptime(60), Uptime { days: 0, hours: 0, minutes: 1, seconds: 0 });
    assert_eq!(split_uptime(86399), Uptime { days: 0, hours: 23, minutes: 59, seconds: 59 });
    assert_eq!(split_uptime(86400), Uptime { days: 1, hours: 0, minutes: 0, seconds: 0 });
    assert_eq!(split_uptime(93784), Uptime { days: 1, hours: 2, minutes: 3, seconds: 4 });
    assert_eq!(
        split_uptime(u64::MAX),
        Uptime { days: 213503982334601, hours: 7, minutes: 0, seconds: 15 }
    );
}

#[test]
fn uptime_is_written_in_backticks() {
    assert_eq!(uptime_str(0), "`0d 0h 0m 0s`");
    assert_eq!(uptime_str(93784), "`1d 2h 3m 4s`");
    assert_eq!(uptime_str(86399), "`0d 23h 59m 59s`");
    assert_eq!(uptime_str(u64::MAX), "`213503982334601d 7h 0m 15s`");
    assert_eq!(join_uptime("a", "b", "c", "d"), "`ad bh cm ds`");
    assert_eq!(join_uptime("", "", "", ""), "`d h m s`");
}

#[test]
fn permissions_in_a_thread_go_by_the_thread_permission() {
    let p = ChannelPermissions {
        from_thread: true,
        send_messages: true,
        send_messages_in_threads: false,
        add_reactions: true,
    };
    assert_eq!(has_permissions(Some(p)), (false, true));
    let q = ChannelPermissions { from_thread: false, ..p };
    assert_eq!(has_permissions(Some(q)), (true, true));
    let r = ChannelPermissions { add_reactions: false, send_messages_in_threads: true, ..p };
    assert_eq!(has_permissions(Some(r)), (true, false));
    assert_eq!(has_permissions(None), (false, false));
}

#[test]
fn reply_prefers_what_it_is_asked_to_and_falls_back() {
    assert_eq!(message_react(true, true, true), ReplyChoice::React);
    assert_eq!(message_react(true, false, true), ReplyChoice::React);
    assert_eq!(message_react(true, true, false), ReplyChoice::Say);
    assert_eq!(message_react(true, false, false), ReplyChoice::Nothing);
    assert_eq!(message_react(false, true, true), ReplyChoice::Say);
    assert_eq!(message_react(false, true, false), ReplyChoice::Say);
    assert_eq!(message_react(false, false, true), ReplyChoice::React);
    assert_eq!(message_react(false, false, false), ReplyChoice::Nothing);
}

#[test]
fn choices_are_gathered_in_order_without_the_missing() {
    let rest = vec![None, Some("c".to_string()), None, Some("d".to_string()), None];
    assert_eq!(gather_choices("a".to_string(), "b".to_string(), rest), vec!["a", "b", "c", "d"]);
    assert_eq!(gather_choices("a".to_string(), "b".to_string(), vec![]), vec!["a", "b"]);
    assert_eq!(gather_choices("a".to_string(), "a".to_string(), vec![None]), vec!["a", "a"]);
}

#[test]
fn choice_index_is_the_remainder() {
    assert_eq!(choice_index(0, 2), 0);
    assert_eq!(choice_index(7, 2), 1);
    assert_eq!(choice_index(7, 10), 7);
    assert_eq!(choice_index(u32::MAX, 10), 5);
    assert_eq!(choice_index(u32::MAX, 1), 0);
}

#[test]
fn chosen_option_is_one_of_the_choices() {
    let mut seen = std::collections::HashSet::new();
    for _ in 0..400 {
        let rest = vec![Some("c".to_string()), None, Some("d".to_string())];
        let chosen = choose_one("a".to_string(), "b".to_string(), rest);
        assert!(["a", "b", "c", "d"].contains(&chosen.as_str()));
        seen.insert(chosen);
    }
    assert!(seen.len() > 1);
}

#[test]
fn expression_is_shown_by_name_or_identifier() {
    assert_eq!(Expression::Id(1234567890123).to_text(), "1234567890123");
    assert_eq!(Expression::Id(0).to_text(), "0");
    assert_eq!(Expression::Id(u64::MAX).to_text(), "18446744073709551615");
    assert_eq!(Expression::Name("blobcat").to_text(), "blobcat");
    assert_eq!(Expression::Standard("\u{1f98b}").to_text(), "\u{1f98b}");
    assert_eq!(Expression::Emote((42, "moth".to_string())).to_text(), "moth");
}

#[test]
fn emote_usage_labels_are_exhaustive() {
    assert_eq!(EmoteUsageType::Message.label(), "Message");
    assert_eq!(EmoteUsageType::ReactionAdd.label(), "ReactionAdd");
    assert_eq!(EmoteUsageType::ReactionRemove.label(), "ReactionRemove");
    for usage in [EmoteUsageType::Message, EmoteUsageType::ReactionAdd, EmoteUsageType::ReactionRemove] {
        assert_eq!(EmoteUsageType::from_label(usage.label()), Ok(usage));
    }
    assert_eq!(EmoteUsageType::from_label("Reaction"), Err(StarboardError::Decode));
    assert_eq!(EmoteUsageType::from_label("message"), Err(StarboardError::Decode));
}
