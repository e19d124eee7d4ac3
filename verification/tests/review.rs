use moth::database::Database;
use moth::error::StarboardError;
use moth::handler::StarboardHandler;
use moth::ids::{ChannelIdWrapper, MaybeMessageIdWrapper, MessageIdWrapper, UserIdWrapper};
use moth::message::StarboardMessage;
use moth::review::{
    allowed_user, begin, committed, fetched, posted, ReviewAction, ReviewOutcome, ReviewReport, ReviewStep,
    MODERATOR_MOXY, MODERATOR_PHIL, MODERATOR_RUBEN,
};
use moth::status::{Posting, StarboardStatus, Transition};
use moth::store::Store;
use moth::table::Key;

const QUEUE_POST: MessageIdWrapper = MessageIdWrapper(900);
const HIGHLIGHT: Posting = Posting { message_id: MessageIdWrapper(950), channel_id: ChannelIdWrapper(300) };

fn phil() -> UserIdWrapper {
    UserIdWrapper(MODERATOR_PHIL)
}

fn ruben() -> UserIdWrapper {
    UserIdWrapper(MODERATOR_RUBEN)
}

fn stranger() -> UserIdWrapper {
    UserIdWrapper(12345)
}

fn flagged(source: u64, posted: u64) -> StarboardMessage {
    StarboardMessage {
        id: 0,
        user_id: UserIdWrapper(7),
        username: "moth".to_string(),
        avatar_url: None,
        content: "a very good post".to_string(),
        channel_id: ChannelIdWrapper(100),
        message_id: MessageIdWrapper(source),
        attachment_urls: vec![],
        star_count: 5,
        starboard_status: StarboardStatus::InReview,
        starboard_message_id: MessageIdWrapper(posted),
        starboard_message_channel: ChannelIdWrapper(200),
        reply_message_id: MaybeMessageIdWrapper(None),
        reply_username: None,
        forwarded: false,
    }
}

fn queue_of_one() -> Database {
    let mut db = Database::new(Store::new()).unwrap();
    db.insert_starboard_msg(flagged(42, QUEUE_POST.0)).unwrap();
    db
}

fn status_in_store(db: &Database) -> StarboardStatus {
    db.store().load_all().unwrap()[0].starboard_status
}

fn in_flight(db: &Database) -> bool {
    db.starboard().is_being_handled(QUEUE_POST)
}

#[test]
fn allow_list_holds_three_users() {
    assert!(allowed_user(UserIdWrapper(101090238067113984)));
    assert!(allowed_user(UserIdWrapper(291089948709486593)));
    assert!(allowed_user(UserIdWrapper(158567567487795200)));
    assert!(allowed_user(UserIdWrapper(MODERATOR_MOXY)));
    assert!(!allowed_user(UserIdWrapper(158567567487795201)));
    assert!(!allowed_user(UserIdWrapper(0)));
    assert!(!allowed_user(UserIdWrapper(u64::MAX)));
}

#[test]
fn stranger_is_refused_and_nothing_is_touched() {
    let mut db = queue_of_one();
    db.evict(1);
    assert_eq!(db.handle(stranger(), QUEUE_POST, ReviewOutcome::Accept, Some(HIGHLIGHT)), Err(StarboardError::Unauthorized));
    assert_eq!(db.handle(stranger(), QUEUE_POST, ReviewOutcome::Deny, None), Err(StarboardError::Unauthorized));
    assert!(!in_flight(&db));
    assert!(db.starboard().cached().is_empty());
    assert_eq!(status_in_store(&db), StarboardStatus::InReview);
}

#[test]
fn stranger_does_not_learn_whether_the_message_is_in_flight() {
    let mut db = queue_of_one();
    assert!(!db.handle_starboard(QUEUE_POST));
    assert_eq!(db.handle(stranger(), QUEUE_POST, ReviewOutcome::Deny, None), Err(StarboardError::Unauthorized));
    assert!(in_flight(&db));
}

#[test]
fn accept_is_committed_with_the_new_posting() {
    let mut db = queue_of_one();
    assert_eq!(db.handle(phil(), QUEUE_POST, ReviewOutcome::Accept, Some(HIGHLIGHT)), Ok(ReviewReport::Accepted));
    let row = &db.store().load_all().unwrap()[0];
    assert_eq!(row.starboard_status, StarboardStatus::Accepted);
    assert_eq!(row.starboard_message_id, HIGHLIGHT.message_id);
    assert_eq!(row.starboard_message_channel, HIGHLIGHT.channel_id);
    let cached = db.starboard().get(Key::Id(1)).unwrap();
    assert_eq!(format!("{:?}", cached), format!("{:?}", row));
    assert!(!in_flight(&db));
}

#[test]
fn deny_is_committed_and_evicts() {
    let mut db = queue_of_one();
    assert_eq!(db.handle(ruben(), QUEUE_POST, ReviewOutcome::Deny, Some(HIGHLIGHT)), Ok(ReviewReport::Denied));
    let row = &db.store().load_all().unwrap()[0];
    assert_eq!(row.starboard_status, StarboardStatus::Denied);
    assert_eq!(row.starboard_message_id, QUEUE_POST);
    assert!(db.starboard().cached().is_empty());
    assert!(!in_flight(&db));
}

#[test]
fn deny_needs_no_post() {
    let mut db = queue_of_one();
    match db.begin_review(phil(), QUEUE_POST, ReviewOutcome::Deny) {
        ReviewStep::Done(r) => assert_eq!(r, Ok(ReviewReport::Denied)),
        ReviewStep::Post(_) => panic!("a denial posts nothing"),
    }
}

#[test]
fn failed_post_leaves_the_record_in_review_for_a_retry() {
    let mut db = queue_of_one();
    assert_eq!(db.handle(phil(), QUEUE_POST, ReviewOutcome::Accept, None), Ok(ReviewReport::NotPosted));
    assert_eq!(status_in_store(&db), StarboardStatus::InReview);
    assert_eq!(db.starboard().get(Key::Id(1)).unwrap().starboard_status, StarboardStatus::InReview);
    assert!(!in_flight(&db));
    assert_eq!(db.handle(phil(), QUEUE_POST, ReviewOutcome::Accept, Some(HIGHLIGHT)), Ok(ReviewReport::Accepted));
}

#[test]
fn unknown_target_is_not_found() {
    let mut db = queue_of_one();
    let other = MessageIdWrapper(901);
    assert_eq!(db.handle(phil(), other, ReviewOutcome::Accept, Some(HIGHLIGHT)), Err(StarboardError::NotFound));
    assert_eq!(db.handle(phil(), other, ReviewOutcome::Deny, None), Err(StarboardError::NotFound));
    assert!(!db.starboard().is_being_handled(other));
    assert_eq!(status_in_store(&db), StarboardStatus::InReview);
}

#[test]
fn record_resolves_from_the_store_on_a_miss() {
    let mut db = queue_of_one();
    db.evict(1);
    match db.begin_review(phil(), QUEUE_POST, ReviewOutcome::Accept) {
        ReviewStep::Post(record) => {
            assert_eq!(record.id, 1);
            assert_eq!(record.message_id, MessageIdWrapper(42));
        }
        ReviewStep::Done(r) => panic!("ended early: {r:?}"),
    }
    assert_eq!(db.starboard().get(Key::Id(1)).unwrap().id, 1);
    assert!(in_flight(&db));
    assert_eq!(db.finish_review(QUEUE_POST, 1, Some(HIGHLIGHT)), Ok(ReviewReport::Accepted));
    assert!(!in_flight(&db));
}

#[test]
fn unreachable_store_aborts_and_releases() {
    let mut db = queue_of_one();
    db.evict(1);
    db.set_store_available(false);
    assert_eq!(db.handle(phil(), QUEUE_POST, ReviewOutcome::Deny, None), Err(StarboardError::StoreUnavailable));
    assert!(!in_flight(&db));
    db.set_store_available(true);
    assert_eq!(status_in_store(&db), StarboardStatus::InReview);
    assert_eq!(db.handle(phil(), QUEUE_POST, ReviewOutcome::Deny, None), Ok(ReviewReport::Denied));
}

#[test]
fn unreachable_store_at_commit_leaves_no_partial_state() {
    let mut db = queue_of_one();
    db.set_store_available(false);
    assert_eq!(
        db.handle(phil(), QUEUE_POST, ReviewOutcome::Accept, Some(HIGHLIGHT)),
        Err(StarboardError::StoreUnavailable)
    );
    assert!(!in_flight(&db));
    assert_eq!(db.starboard().get(Key::Id(1)).unwrap().starboard_status, StarboardStatus::InReview);
    assert_eq!(db.starboard().get(Key::Id(1)).unwrap().starboard_message_id, QUEUE_POST);
    db.set_store_available(true);
    assert_eq!(status_in_store(&db), StarboardStatus::InReview);
    assert_eq!(db.handle(phil(), QUEUE_POST, ReviewOutcome::Accept, Some(HIGHLIGHT)), Ok(ReviewReport::Accepted));
}

#[test]
fn click_on_an_accepted_record_is_a_conflict() {
    let mut db = queue_of_one();
    db.handle(phil(), QUEUE_POST, ReviewOutcome::Accept, Some(HIGHLIGHT)).unwrap();
    let again = Posting { message_id: MessageIdWrapper(960), channel_id: ChannelIdWrapper(301) };
    let before = format!("{:?}", db.store().load_all().unwrap()[0]);
    assert_eq!(
        db.handle(ruben(), HIGHLIGHT.message_id, ReviewOutcome::Deny, None),
        Err(StarboardError::IllegalTransition)
    );
    assert_eq!(
        db.handle(ruben(), HIGHLIGHT.message_id, ReviewOutcome::Accept, Some(again)),
        Err(StarboardError::IllegalTransition)
    );
    assert_eq!(format!("{:?}", db.store().load_all().unwrap()[0]), before);
    assert!(!db.starboard().is_being_handled(HIGHLIGHT.message_id));
    assert_eq!(db.handle(ruben(), QUEUE_POST, ReviewOutcome::Deny, None), Err(StarboardError::NotFound));
}

#[test]
fn two_accepts_at_once_commit_exactly_one() {
    let mut db = queue_of_one();
    let first = db.begin_review(phil(), QUEUE_POST, ReviewOutcome::Accept);
    let second = db.begin_review(ruben(), QUEUE_POST, ReviewOutcome::Accept);
    let mut posts = 0;
    let record = match first {
        ReviewStep::Post(record) => {
            posts += 1;
            record
        }
        ReviewStep::Done(r) => panic!("the first click ended early: {r:?}"),
    };
    match second {
        ReviewStep::Post(_) => posts += 1,
        ReviewStep::Done(r) => assert_eq!(r, Ok(ReviewReport::InFlight)),
    }
    assert_eq!(posts, 1);
    assert_eq!(status_in_store(&db), StarboardStatus::InReview);
    assert_eq!(db.finish_review(QUEUE_POST, record.id, Some(HIGHLIGHT)), Ok(ReviewReport::Accepted));
    assert_eq!(status_in_store(&db), StarboardStatus::Accepted);
    assert_eq!(db.store().load_all().unwrap().len(), 1);
    assert_eq!(db.store().load_all().unwrap()[0].starboard_message_id, HIGHLIGHT.message_id);
    assert!(!in_flight(&db));
}

#[test]
fn accept_and_deny_at_once_commit_exactly_one() {
    let mut db = queue_of_one();
    let first = db.begin_review(phil(), QUEUE_POST, ReviewOutcome::Accept);
    assert!(matches!(first, ReviewStep::Post(_)));
    match db.begin_review(ruben(), QUEUE_POST, ReviewOutcome::Deny) {
        ReviewStep::Done(r) => assert_eq!(r, Ok(ReviewReport::InFlight)),
        ReviewStep::Post(_) => panic!("a denial posts nothing"),
    }
    assert_eq!(status_in_store(&db), StarboardStatus::InReview);
    assert_eq!(db.finish_review(QUEUE_POST, 1, Some(HIGHLIGHT)), Ok(ReviewReport::Accepted));
    assert_eq!(status_in_store(&db), StarboardStatus::Accepted);
}

#[test]
fn click_while_in_flight_is_a_silent_no_op() {
    let mut db = queue_of_one();
    assert!(!db.handle_starboard(QUEUE_POST));
    assert_eq!(db.handle(phil(), QUEUE_POST, ReviewOutcome::Deny, None), Ok(ReviewReport::InFlight));
    assert!(in_flight(&db));
    assert_eq!(status_in_store(&db), StarboardStatus::InReview);
    db.stop_handle_starboard(&QUEUE_POST);
    assert_eq!(db.handle(phil(), QUEUE_POST, ReviewOutcome::Deny, None), Ok(ReviewReport::Denied));
}

#[test]
fn steps_name_the_outside_work_in_order() {
    let mut handler = StarboardHandler::new(&vec![]);
    let mut row = flagged(42, QUEUE_POST.0);
    row.id = 1;
    let action = begin(&mut handler, phil(), QUEUE_POST, ReviewOutcome::Accept);
    assert!(matches!(action, ReviewAction::Fetch));
    assert!(handler.is_being_handled(QUEUE_POST));
    let action = fetched(&mut handler, QUEUE_POST, ReviewOutcome::Accept, Ok(Some(row.clone())));
    match action {
        ReviewAction::Post(record) => assert_eq!(format!("{record:?}"), format!("{row:?}")),
        other => panic!("expected a post, got {other:?}"),
    }
    assert_eq!(handler.get(Key::Posted(QUEUE_POST.0)).unwrap().id, 1);
    let action = posted(&mut handler, QUEUE_POST, 1, Some(HIGHLIGHT));
    match action {
        ReviewAction::Commit { id, transition } => {
            assert_eq!(id, 1);
            assert_eq!(transition, Transition::Accept(HIGHLIGHT));
        }
        other => panic!("expected a commit, got {other:?}"),
    }
    assert!(handler.is_being_handled(QUEUE_POST));
    assert_eq!(
        committed(&mut handler, QUEUE_POST, 1, Transition::Accept(HIGHLIGHT), Ok(())),
        Ok(ReviewReport::Accepted)
    );
    assert!(!handler.is_being_handled(QUEUE_POST));
    let cached = handler.get(Key::Id(1)).unwrap();
    assert_eq!(cached.starboard_status, StarboardStatus::Accepted);
    assert_eq!(cached.posting(), HIGHLIGHT);
}

#[test]
fn steps_release_on_every_failure() {
    let mut row = flagged(42, QUEUE_POST.0);
    row.id = 1;
    let mut denied = row.clone();
    denied.starboard_status = StarboardStatus::Denied;
    let mut elsewhere = row.clone();
    elsewhere.starboard_message_id = MessageIdWrapper(901);
    let answers = [
        (Err(StarboardError::StoreUnavailable), StarboardError::StoreUnavailable),
        (Ok(None), StarboardError::NotFound),
        (Ok(Some(denied)), StarboardError::NotFound),
        (Ok(Some(elsewhere)), StarboardError::NotFound),
    ];
    for (answer, expected) in answers {
        let mut handler = StarboardHandler::new(&vec![]);
        assert!(matches!(begin(&mut handler, phil(), QUEUE_POST, ReviewOutcome::Deny), ReviewAction::Fetch));
        match fetched(&mut handler, QUEUE_POST, ReviewOutcome::Deny, answer) {
            ReviewAction::Finish(r) => assert_eq!(r, Err(expected)),
            other => panic!("expected the end, got {other:?}"),
        }
        assert!(!handler.is_being_handled(QUEUE_POST));
        assert!(handler.cached().is_empty());
    }
    let mut handler = StarboardHandler::new(&vec![]);
    handler.put(row.clone());
    assert!(matches!(begin(&mut handler, phil(), QUEUE_POST, ReviewOutcome::Accept), ReviewAction::Post(_)));
    match posted(&mut handler, QUEUE_POST, 1, None) {
        ReviewAction::Finish(r) => assert_eq!(r, Ok(ReviewReport::NotPosted)),
        other => panic!("expected the end, got {other:?}"),
    }
    assert!(!handler.is_being_handled(QUEUE_POST));
    assert!(handler.try_acquire(QUEUE_POST));
    assert_eq!(
        committed(&mut handler, QUEUE_POST, 1, Transition::Deny, Err(StarboardError::StoreUnavailable)),
        Err(StarboardError::StoreUnavailable)
    );
    assert!(!handler.is_being_handled(QUEUE_POST));
    assert_eq!(handler.get(Key::Id(1)).unwrap().starboard_status, StarboardStatus::InReview);
}

#[test]
fn deny_from_the_working_set_commits_without_a_fetch() {
    let mut handler = StarboardHandler::new(&vec![]);
    let mut row = flagged(42, QUEUE_POST.0);
    row.id = 1;
    handler.put(row);
    match begin(&mut handler, phil(), QUEUE_POST, ReviewOutcome::Deny) {
        ReviewAction::Commit { id, transition } => {
            assert_eq!(id, 1);
            assert_eq!(transition, Transition::Deny);
        }
        other => panic!("expected a commit, got {other:?}"),
    }
    assert_eq!(committed(&mut handler, QUEUE_POST, 1, Transition::Deny, Ok(())), Ok(ReviewReport::Denied));
    assert!(handler.cached().is_empty());
    assert!(!handler.is_being_handled(QUEUE_POST));
}
