//! The curation core of a community starboard: the record of a curated
//! message and its review status, the table that stores the records, the
//! working set that mirrors it, the in-flight guard, the per-channel
//! thresholds and the moderators' workflow that ties them together; and,
//! beside it, the small decisions of the bot's commands.

pub mod error;
pub mod ids;
pub mod status;
pub mod message;
pub mod table;
pub mod store;
pub mod access;
pub mod cache;
pub mod choices;
pub mod guard;
pub mod handler;
pub mod review;
pub mod database;
pub mod laws;
pub mod config;
pub mod text;
pub mod commands;
pub mod registry;
pub mod moderation;
pub mod pagination;
pub mod expressions;
pub mod flags;
pub mod random;
pub mod reply;
pub mod uptime;
