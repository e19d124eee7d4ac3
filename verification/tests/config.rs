use moth::config::{
    classify_component, ComponentDecision, StarboardConfig, DEFAULT_GUILD, DEFAULT_POST_CHANNEL,
    DEFAULT_QUEUE_CHANNEL, DEFAULT_ROLE, DEFAULT_THRESHOLD,
};
use moth::ids::{ChannelIdWrapper, UserIdWrapper};
use moth::review::{ReviewOutcome, MODERATOR_MOXY};

fn defaults() -> StarboardConfig {
    StarboardConfig::from_settings(None, None, None, None, None, None, None)
}

fn decide(config: &StarboardConfig, button: &str, channel: u64, user: u64) -> ComponentDecision {
    classify_component(config, &button.to_string(), ChannelIdWrapper(channel), UserIdWrapper(user))
}

#[test]
fn missing_settings_take_their_defaults() {
    let config = defaults();
    assert!(config.active);
    assert_eq!(config.queue_channel, ChannelIdWrapper(1324543000600383549));
    assert_eq!(config.post_channel, ChannelIdWrapper(1324437745854316564));
    assert_eq!(config.guild_id, 98226572468690944);
    assert_eq!(config.allowed_role, 98459030455853056);
    assert_eq!(config.star_emoji, "⭐");
    assert_eq!(config.threshold, 5);
    assert_eq!(
        (DEFAULT_QUEUE_CHANNEL, DEFAULT_POST_CHANNEL, DEFAULT_GUILD, DEFAULT_ROLE, DEFAULT_THRESHOLD),
        (1324543000600383549, 1324437745854316564, 98226572468690944, 98459030455853056, 5)
    );
}

#[test]
fn given_settings_are_kept() {
    let config = StarboardConfig::from_settings(
        Some(false),
        Some(1),
        Some(2),
        Some(3),
        Some(4),
        Some("🌟".to_string()),
        Some(9),
    );
    assert!(!config.active);
    assert_eq!(config.queue_channel, ChannelIdWrapper(1));
    assert_eq!(config.post_channel, ChannelIdWrapper(2));
    assert_eq!(config.guild_id, 3);
    assert_eq!(config.allowed_role, 4);
    assert_eq!(config.star_emoji, "🌟");
    assert_eq!(config.threshold, 9);
}

#[test]
fn zero_is_no_identifier() {
    let config = StarboardConfig::from_settings(None, Some(0), Some(0), Some(0), Some(0), None, Some(0));
    assert_eq!(config.queue_channel.0, DEFAULT_QUEUE_CHANNEL);
    assert_eq!(config.post_channel.0, DEFAULT_POST_CHANNEL);
    assert_eq!(config.guild_id, DEFAULT_GUILD);
    assert_eq!(config.allowed_role, DEFAULT_ROLE);
    assert_eq!(config.threshold, 0);
}

#[test]
fn allowed_click_in_the_queue_is_a_review() {
    let config = defaults();
    assert_eq!(
        decide(&config, "starboard_accept", DEFAULT_QUEUE_CHANNEL, MODERATOR_MOXY),
        ComponentDecision::Review(ReviewOutcome::Accept)
    );
    assert_eq!(
        decide(&config, "starboard_deny", DEFAULT_QUEUE_CHANNEL, MODERATOR_MOXY),
        ComponentDecision::Review(ReviewOutcome::Deny)
    );
}

#[test]
fn stranger_in_the_queue_is_refused() {
    let config = defaults();
    assert_eq!(decide(&config, "starboard_accept", DEFAULT_QUEUE_CHANNEL, 1), ComponentDecision::Refuse);
    assert_eq!(decide(&config, "starboard_deny", DEFAULT_QUEUE_CHANNEL, 1), ComponentDecision::Refuse);
}

#[test]
fn other_buttons_channels_and_an_inactive_board_are_ignored() {
    let config = defaults();
    assert_eq!(decide(&config, "starboard_maybe", DEFAULT_QUEUE_CHANNEL, MODERATOR_MOXY), ComponentDecision::Ignore);
    assert_eq!(decide(&config, "Starboard_Accept", DEFAULT_QUEUE_CHANNEL, MODERATOR_MOXY), ComponentDecision::Ignore);
    assert_eq!(decide(&config, "", DEFAULT_QUEUE_CHANNEL, 1), ComponentDecision::Ignore);
    assert_eq!(decide(&config, "starboard_accept", DEFAULT_POST_CHANNEL, MODERATOR_MOXY), ComponentDecision::Ignore);
    assert_eq!(decide(&config, "starboard_deny", 5, 1), ComponentDecision::Ignore);
    let off = StarboardConfig::from_settings(Some(false), None, None, None, None, None, None);
    assert_eq!(decide(&off, "starboard_accept", DEFAULT_QUEUE_CHANNEL, MODERATOR_MOXY), ComponentDecision::Ignore);
    assert_eq!(decide(&off, "starboard_accept", DEFAULT_QUEUE_CHANNEL, 1), ComponentDecision::Ignore);
}
