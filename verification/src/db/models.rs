//! The rows of the policy store that the moderation rules read.

use vstd::prelude::*;

verus! {

/// The policy of one chat.
#[derive(Debug, Clone)]
pub struct ChatSettings {
    pub tg_chat_id: i64,
    pub language: String,
    pub moderation_enabled: bool,
    /// `off`, `deny_all`, `deny_list` or `allow_list`; any other text counts as `off`.
    pub links_mode: String,
    pub flood_window_sec: i32,
    pub flood_max_msgs: i32,
    pub warn_threshold: i32,
    /// `warn`, `mute` or `ban`.
    pub default_sanction: String,
    pub mute_minutes: i32,
    pub raid_window_sec: i32,
    pub raid_max_joins: i32,
    pub lockdown_minutes: i32,
    pub verification_enabled: bool,
    pub verification_timeout_min: i32,
    pub log_chat_id: Option<i64>,
    pub log_thread_id: Option<i64>,
}

/// A content filter of one chat.
#[derive(Debug, Clone)]
pub struct Filter {
    pub id: i64,
    pub tg_chat_id: i64,
    /// `text` for a substring rule, `regex` for a regular expression; a rule
    /// of any other kind matches nothing.
    pub kind: String,
    pub pattern: String,
    pub enabled: bool,
}

/// An entry of a chat's allow list or deny list of domains.
#[derive(Debug, Clone)]
pub struct DomainRule {
    pub id: i64,
    pub tg_chat_id: i64,
    /// `allow` or `deny`.
    pub list_type: String,
    pub domain: String,
    pub enabled: bool,
}

} // verus!
