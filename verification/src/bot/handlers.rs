//! What is done about an update, decided from what it holds.

use crate::text::{
    fields, has_prefix, i64_of, parse_i64, parse_u64, str_eq, str_split, str_starts_with,
    str_trim_start_matches, u64_of, views, without_leading,
};
use vstd::prelude::*;

verus! {

/// What is done about a message, apart from recording its sender.
#[derive(Debug, Clone, Copy, PartialEq, Eq, Structural)]
pub enum MessageRoute {
    /// A message in a group: the chat and its settings are recorded, the
    /// group panel is sent where `panel` is set, and the message is moderated.
    Group { panel: bool },
    /// A message in a private chat: the sender is welcomed where `welcome` is set.
    Private { welcome: bool },
}

/// What is done about a callback that passed the rate limit.
#[derive(Debug, Clone, Copy, PartialEq, Eq, Structural)]
pub enum CallbackRoute {
    /// Nothing.
    Ignore,
    /// The sender's rights in `chat_id` are looked up and reported.
    CheckRights { chat_id: i64 },
    /// The help text is shown.
    Help,
    /// The rules are pointed to.
    Rules,
    /// The section of the menu that the callback names is shown.
    Menu,
    /// The sender is told whether the verification was passed.
    Verify { passed: bool },
}

/// What is done about a message with `text`, if it has one, in a public or a
/// private chat: a group gets its panel on `/start`, a private sender is
/// welcomed on `/start` and `/help`.
pub open spec fn message_route(public: bool, text: Option<Seq<char>>) -> MessageRoute {
    if public {
        MessageRoute::Group { panel: text matches Some(t) && has_prefix(t, "/start"@) }
    } else {
        MessageRoute::Private {
            welcome: text matches Some(t) && (has_prefix(t, "/start"@) || has_prefix(t, "/help"@)),
        }
    }
}

/// The chat that a request to check rights names: the second field of the
/// callback between colons where it denotes a chat, else the chat of the
/// message that carried the button.
pub open spec fn rights_chat(data: Seq<char>, chat_id: i64) -> i64 {
    let parts = fields(data, ':');
    let named = if parts.len() > 1 {
        i64_of(parts[1])
    } else {
        None
    };
    match named {
        Some(id) => id,
        None => chat_id,
    }
}

/// Whether a press of a verification button counts: the callback has three
/// fields between colons and the third names the user who pressed. A third
/// field that names no user stands for user 0. `None` where the callback
/// does not have three fields.
pub open spec fn verification(data: Seq<char>, from_id: u64) -> Option<bool> {
    let parts = fields(data, ':');
    if parts.len() == 3 {
        let target = match u64_of(parts[2]) {
            Some(id) => id,
            None => 0u64,
        };
        Some(from_id == target)
    } else {
        None
    }
}

/// What is done about a callback with `data` that user `from_id` sent by
/// pressing a button under a message in `chat_id`, if that message is still
/// known. The first of these decides: `check_rights:`, `help`, `rules:`,
/// `menu:`, `verify:`.
pub open spec fn callback_route(
    data: Seq<char>,
    has_message: bool,
    from_id: u64,
    chat_id: i64,
) -> CallbackRoute {
    if !has_message {
        CallbackRoute::Ignore
    } else if has_prefix(data, "check_rights:"@) {
        CallbackRoute::CheckRights { chat_id: rights_chat(data, chat_id) }
    } else if data == "help"@ {
        CallbackRoute::Help
    } else if has_prefix(data, "rules:"@) {
        CallbackRoute::Rules
    } else if has_prefix(data, "menu:"@) {
        CallbackRoute::Menu
    } else if has_prefix(data, "verify:"@) {
        match verification(data, from_id) {
            Some(passed) => CallbackRoute::Verify { passed },
            None => CallbackRoute::Ignore,
        }
    } else {
        CallbackRoute::Ignore
    }
}

/// What is done about a message with `text`, if it has one, in a public or a private chat.
pub fn route_message(public: bool, text: Option<&str>) -> (route: MessageRoute)
    ensures
        route == message_route(
            public,
            match text {
                Some(t) => Some(t@),
                None => None,
            },
        ),
{
    match text {
        Some(t) => {
            if public {
                MessageRoute::Group { panel: str_starts_with(t, "/start") }
            } else {
                MessageRoute::Private {
                    welcome: str_starts_with(t, "/start") || str_starts_with(t, "/help"),
                }
            }
        },
        None => {
            if public {
                MessageRoute::Group { panel: false }
            } else {
                MessageRoute::Private { welcome: false }
            }
        },
    }
}

/// What is done about a callback with `data` that user `from_id` sent by
/// pressing a button under a message in `chat_id`; `has_message` says
/// whether that message is still known.
pub fn route_callback(data: &str, has_message: bool, from_id: u64, chat_id: i64) -> (route:
    CallbackRoute)
    ensures
        route == callback_route(data@, has_message, from_id, chat_id),
{
    if !has_message {
        CallbackRoute::Ignore
    } else if str_starts_with(data, "check_rights:") {
        let parts = str_split(data, ':');
        let named = if parts.len() > 1 {
            parse_i64(parts[1].as_str())
        } else {
            None
        };
        match named {
            Some(id) => CallbackRoute::CheckRights { chat_id: id },
            None => CallbackRoute::CheckRights { chat_id },
        }
    } else if str_eq(data, "help") {
        CallbackRoute::Help
    } else if str_starts_with(data, "rules:") {
        CallbackRoute::Rules
    } else if str_starts_with(data, "menu:") {
        CallbackRoute::Menu
    } else if str_starts_with(data, "verify:") {
        let parts = str_split(data, ':');
        if parts.len() == 3 {
            let target = match parse_u64(parts[2].as_str()) {
                Some(id) => id,
                None => 0,
            };
            CallbackRoute::Verify { passed: from_id == target }
        } else {
            CallbackRoute::Ignore
        }
    } else {
        CallbackRoute::Ignore
    }
}

/// The section that a menu callback names: what follows its leading `menu:`.
pub fn menu_section(data: &str) -> (section: &str)
    ensures
        section@ == without_leading(data@, "menu:"@),
{
    proof {
        reveal_strlit("menu:");
    }
    str_trim_start_matches(data, "menu:")
}

} // verus!
