use moth::error::StarboardError;
use moth::handler::StarboardHandler;
use moth::ids::{ChannelIdWrapper, MaybeMessageIdWrapper, MessageIdWrapper, UserIdWrapper};
use moth::message::StarboardMessage;
use moth::status::{Posting, StarboardStatus, Transition};
use moth::store::ChannelOverride;
use moth::table::Key;

fn record(id: i32, source: u64, posted: u64, stars: i16) -> StarboardMessage {
    StarboardMessage {
        id,
        user_id: UserIdWrapper(7),
        username: "moth".to_string(),
        avatar_url: None,
        content: format!("message {source}"),
        channel_id: ChannelIdWrapper(100),
        message_id: MessageIdWrapper(source),
        attachment_urls: vec![],
        star_count: stars,
        starboard_status: StarboardStatus::InReview,
        starboard_message_id: MessageIdWrapper(posted),
        starboard_message_channel: ChannelIdWrapper(200),
        reply_message_id: MaybeMessageIdWrapper(Some(MessageIdWrapper(3))),
        reply_username: Some("lamp".to_string()),
        forwarded: true,
    }
}

fn show(m: &StarboardMessage) -> String {
    format!("{:?}", m)
}

fn empty() -> StarboardHandler {
    StarboardHandler::new(&vec![])
}

#[test]
fn clone_keeps_every_field() {
    let mut r = record(4, 42, 900, 6);
    r.avatar_url = Some("https://cdn.example/a.png".to_string());
    r.attachment_urls = vec!["one".to_string(), "two".to_string()];
    let c = r.clone();
    assert_eq!(show(&c), show(&r));
    assert_eq!(c.attachment_urls, vec!["one".to_string(), "two".to_string()]);
    assert_eq!(c.reply_message_id, MaybeMessageIdWrapper(Some(MessageIdWrapper(3))));
}

#[test]
fn apply_accept_sets_status_and_posting_only() {
    let mut r = record(4, 42, 900, 6);
    r.apply(Transition::Accept(Posting { message_id: MessageIdWrapper(950), channel_id: ChannelIdWrapper(300) }));
    let mut expected = record(4, 42, 950, 6);
    expected.starboard_status = StarboardStatus::Accepted;
    expected.starboard_message_channel = ChannelIdWrapper(300);
    assert_eq!(show(&r), show(&expected));
    assert_eq!(r.posting(), Posting { message_id: MessageIdWrapper(950), channel_id: ChannelIdWrapper(300) });
}

#[test]
fn apply_deny_sets_status_only() {
    let mut r = record(4, 42, 900, 6);
    r.apply(Transition::Deny);
    let mut expected = record(4, 42, 900, 6);
    expected.starboard_status = StarboardStatus::Denied;
    assert_eq!(show(&r), show(&expected));
    assert!(!r.is_active());
}

#[test]
fn put_then_get_returns_the_record_by_every_key() {
    let mut h = empty();
    let r = record(1, 42, 900, 5);
    h.put(r.clone());
    assert_eq!(show(&h.get(Key::Id(1)).unwrap()), show(&r));
    assert_eq!(show(&h.get(Key::Source(42)).unwrap()), show(&r));
    assert_eq!(show(&h.get(Key::Posted(900)).unwrap()), show(&r));
    assert!(h.get(Key::Id(2)).is_none());
    assert!(h.get(Key::Source(900)).is_none());
    assert!(h.get(Key::Posted(42)).is_none());
}

#[test]
fn put_of_an_accepted_record_round_trips() {
    let mut h = empty();
    let mut r = record(1, 42, 950, 5);
    r.starboard_status = StarboardStatus::Accepted;
    h.put(r.clone());
    assert_eq!(show(&h.get(Key::Source(42)).unwrap()), show(&r));
}

#[test]
fn put_overwrites_and_does_not_merge() {
    let mut h = empty();
    h.put(record(1, 42, 900, 5));
    let mut newer = record(1, 42, 900, 9);
    newer.reply_username = None;
    newer.content = "edited".to_string();
    h.put(newer.clone());
    assert_eq!(h.cached().len(), 1);
    assert_eq!(show(&h.get(Key::Id(1)).unwrap()), show(&newer));
}

#[test]
fn put_touches_no_entry_but_the_one_with_its_number() {
    let mut h = empty();
    h.put(record(1, 42, 900, 5));
    h.put(record(2, 43, 901, 5));
    h.put(record(3, 42, 901, 5));
    let cached = h.cached();
    assert_eq!(cached.iter().map(|m| m.id).collect::<Vec<_>>(), vec![1, 2, 3]);
    h.put(record(2, 50, 950, 7));
    let cached = h.cached();
    assert_eq!(cached.iter().map(|m| m.id).collect::<Vec<_>>(), vec![1, 2, 3]);
    assert_eq!(show(&cached[1]), show(&record(2, 50, 950, 7)));
    assert_eq!(show(&cached[0]), show(&record(1, 42, 900, 5)));
    assert_eq!(show(&cached[2]), show(&record(3, 42, 901, 5)));
    assert_eq!(h.get(Key::Source(42)).unwrap().id, 1);
    assert_eq!(h.get(Key::Posted(901)).unwrap().id, 3);
}

#[test]
fn denied_record_in_the_working_set_answers_to_its_number_only() {
    let mut h = empty();
    h.put(record(1, 42, 900, 5));
    let mut denied = record(1, 42, 900, 5);
    denied.starboard_status = StarboardStatus::Denied;
    h.put(denied.clone());
    assert_eq!(show(&h.get(Key::Id(1)).unwrap()), show(&denied));
    assert!(h.get(Key::Source(42)).is_none());
    assert!(h.get(Key::Posted(900)).is_none());
    assert_eq!(h.cached().len(), 1);
}

#[test]
fn settle_follows_a_change_without_adding_an_entry() {
    let mut h = empty();
    let highlight = Posting { message_id: MessageIdWrapper(950), channel_id: ChannelIdWrapper(300) };
    h.put(record(1, 42, 900, 5));
    h.put(record(2, 43, 901, 5));
    h.settle(3, Transition::Accept(highlight));
    h.settle(3, Transition::Deny);
    assert_eq!(h.cached().iter().map(|m| m.id).collect::<Vec<_>>(), vec![1, 2]);
    h.settle(1, Transition::Accept(highlight));
    let mut expected = record(1, 42, 950, 5);
    expected.starboard_status = StarboardStatus::Accepted;
    expected.starboard_message_channel = ChannelIdWrapper(300);
    let cached = h.cached();
    assert_eq!(cached.iter().map(|m| m.id).collect::<Vec<_>>(), vec![1, 2]);
    assert_eq!(show(&cached[0]), show(&expected));
    h.settle(1, Transition::Deny);
    assert_eq!(h.cached().iter().map(|m| m.id).collect::<Vec<_>>(), vec![2]);
}

#[test]
fn evict_removes_only_that_record() {
    let mut h = empty();
    h.put(record(1, 42, 900, 5));
    h.put(record(2, 43, 901, 5));
    h.evict(1);
    assert!(h.get(Key::Source(42)).is_none());
    assert_eq!(h.get(Key::Source(43)).unwrap().id, 2);
    h.evict(1);
    h.evict(9);
    assert_eq!(h.cached().len(), 1);
}

#[test]
fn set_star_count_changes_only_the_stars_of_a_cached_record() {
    let mut h = empty();
    h.put(record(1, 42, 900, 5));
    h.put(record(2, 43, 901, 5));
    h.set_star_count(2, 11);
    h.set_star_count(3, 12);
    assert_eq!(show(&h.get(Key::Id(2)).unwrap()), show(&record(2, 43, 901, 11)));
    assert_eq!(show(&h.get(Key::Id(1)).unwrap()), show(&record(1, 42, 900, 5)));
    assert_eq!(h.cached().len(), 2);
}

#[test]
fn guard_admits_one_holder_at_a_time() {
    let mut h = empty();
    let id = MessageIdWrapper(900);
    assert!(!h.is_being_handled(id));
    assert!(h.try_acquire(id));
    assert!(h.is_being_handled(id));
    assert!(!h.try_acquire(id));
    assert!(!h.try_acquire(id));
    h.release(id);
    assert!(!h.is_being_handled(id));
    assert!(h.try_acquire(id));
    h.release(id);
    h.release(id);
    assert!(h.try_acquire(id));
}

#[test]
fn guard_does_not_block_other_messages() {
    let mut h = empty();
    assert!(h.try_acquire(MessageIdWrapper(900)));
    assert!(h.try_acquire(MessageIdWrapper(901)));
    h.release(MessageIdWrapper(900));
    assert!(h.is_being_handled(MessageIdWrapper(901)));
    assert!(!h.try_acquire(MessageIdWrapper(901)));
    assert!(h.try_acquire(MessageIdWrapper(900)));
}

#[test]
fn interleaved_acquires_open_one_window_at_a_time() {
    let mut h = empty();
    let id = MessageIdWrapper(5);
    let mut open = 0;
    let script = [true, true, false, true, true, false, false, true, false, true];
    for acquire in script {
        if acquire {
            if h.try_acquire(id) {
                open += 1;
            }
        } else {
            if h.is_being_handled(id) {
                open -= 1;
            }
            h.release(id);
        }
        assert!(open <= 1);
        assert_eq!(open == 1, h.is_being_handled(id));
    }
}

#[test]
fn threshold_resolution_prefers_the_override() {
    let channel_a = ChannelIdWrapper(1);
    let channel_b = ChannelIdWrapper(2);
    let h = StarboardHandler::new(&vec![ChannelOverride { channel_id: channel_a, star_count: 3 }]);
    assert_eq!(h.resolve(channel_a, 5), 3);
    assert_eq!(h.resolve(channel_b, 5), 5);
}

#[test]
fn later_override_of_a_channel_wins_at_start() {
    let h = StarboardHandler::new(&vec![
        ChannelOverride { channel_id: ChannelIdWrapper(1), star_count: 3 },
        ChannelOverride { channel_id: ChannelIdWrapper(2), star_count: 8 },
        ChannelOverride { channel_id: ChannelIdWrapper(1), star_count: 4 },
    ]);
    assert_eq!(h.resolve(ChannelIdWrapper(1), 5), 4);
    assert_eq!(h.resolve(ChannelIdWrapper(2), 5), 8);
    assert_eq!(h.resolve(ChannelIdWrapper(3), 5), 5);
}

#[test]
fn overrides_are_set_and_removed_in_place() {
    let mut h = empty();
    assert_eq!(h.resolve(ChannelIdWrapper(1), 5), 5);
    h.set_override(ChannelIdWrapper(1), 2);
    assert_eq!(h.resolve(ChannelIdWrapper(1), 5), 2);
    h.set_override(ChannelIdWrapper(1), 9);
    assert_eq!(h.resolve(ChannelIdWrapper(1), 5), 9);
    h.remove_override(ChannelIdWrapper(1));
    assert_eq!(h.resolve(ChannelIdWrapper(1), 5), 5);
    h.remove_override(ChannelIdWrapper(1));
    assert_eq!(h.resolve(ChannelIdWrapper(1), 250), 250);
}

#[test]
fn working_set_keeps_the_stars_of_a_finished_review() {
    let mut h = empty();
    let mut accepted = record(1, 42, 950, 8);
    accepted.starboard_status = StarboardStatus::Accepted;
    h.put(accepted);
    h.put(record(2, 43, 901, 8));
    h.set_star_count(1, 30);
    h.set_star_count(2, 7);
    assert_eq!(h.get(Key::Id(1)).unwrap().star_count, 8);
    assert_eq!(h.get(Key::Id(2)).unwrap().star_count, 8);
    h.set_star_count(2, 8);
    h.set_star_count(2, 9);
    assert_eq!(h.get(Key::Id(2)).unwrap().star_count, 9);
}

#[test]
fn star_count_rule_of_a_record() {
    let r = record(1, 42, 900, 5);
    assert_eq!(r.check_star_count(5), Ok(()));
    assert_eq!(r.check_star_count(6), Ok(()));
    assert_eq!(r.check_star_count(i16::MAX), Ok(()));
    assert_eq!(r.check_star_count(4), Err(StarboardError::IllegalTransition));
    let mut done = record(1, 42, 900, 5);
    done.starboard_status = StarboardStatus::Denied;
    assert_eq!(done.check_star_count(6), Err(StarboardError::IllegalTransition));
    done.starboard_status = StarboardStatus::Accepted;
    assert_eq!(done.check_star_count(5), Err(StarboardError::IllegalTransition));
}

#[test]
fn take_in_keeps_what_answers_to_the_key() {
    let mut h = empty();
    let r = record(1, 42, 900, 5);
    assert_eq!(show(&h.take_in(Key::Source(42), Some(r.clone())).unwrap()), show(&r));
    assert_eq!(h.cached().len(), 1);
    let other = record(2, 43, 901, 5);
    assert_eq!(h.take_in(Key::Source(42), Some(other)).unwrap_err(), StarboardError::NotFound);
    let mut denied = record(3, 44, 902, 5);
    denied.starboard_status = StarboardStatus::Denied;
    assert_eq!(h.take_in(Key::Posted(902), Some(denied)).unwrap_err(), StarboardError::NotFound);
    assert_eq!(h.take_in(Key::Posted(902), None).unwrap_err(), StarboardError::NotFound);
    assert_eq!(h.cached().iter().map(|m| m.id).collect::<Vec<_>>(), vec![1]);
}

#[test]
fn merge_reads_in_what_is_active_and_new() {
    let mut h = empty();
    h.put(record(2, 43, 901, 9));
    let mut denied = record(3, 44, 902, 5);
    denied.starboard_status = StarboardStatus::Denied;
    let rows = vec![record(1, 42, 900, 5), record(2, 43, 901, 5), denied, record(4, 45, 903, 5)];
    h.merge(&rows);
    let cached = h.cached();
    assert_eq!(cached.iter().map(|m| m.id).collect::<Vec<_>>(), vec![2, 1, 4]);
    assert_eq!(cached[0].star_count, 9);
    h.merge(&rows);
    assert_eq!(h.cached().len(), 3);
}
