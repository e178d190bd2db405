//! The phrases of the user interface.

use crate::text::str_eq;
use vstd::prelude::*;

verus! {

/// A language of the user interface.
#[derive(Debug, Clone, Copy)]
pub enum Lang {
    Ru,
    En,
}

/// The phrase for `key` in `lang`; empty where there is none.
pub open spec fn phrase(lang: Lang, key: Seq<char>) -> Seq<char> {
    match lang {
        Lang::Ru => if key == "panel"@ {
            "Панель Woxel"@
        } else if key == "open_panel"@ {
            "🛠 Открыть панель"@
        } else if key == "rules"@ {
            "📜 Правила"@
        } else if key == "help"@ {
            "ℹ️ Справка"@
        } else {
            ""@
        },
        Lang::En => if key == "panel"@ {
            "Woxel Panel"@
        } else if key == "open_panel"@ {
            "🛠 Open panel"@
        } else if key == "rules"@ {
            "📜 Rules"@
        } else if key == "help"@ {
            "ℹ️ Help"@
        } else {
            ""@
        },
    }
}

/// The phrase for `key` in `lang`; the empty string for a key that has none.
pub fn tr(lang: Lang, key: &str) -> (text: &'static str)
    ensures
        text@ == phrase(lang, key@),
{
    match lang {
        Lang::Ru => if str_eq(key, "panel") {
            "Панель Woxel"
        } else if str_eq(key, "open_panel") {
            "🛠 Открыть панель"
        } else if str_eq(key, "rules") {
            "📜 Правила"
        } else if str_eq(key, "help") {
            "ℹ️ Справка"
        } else {
            ""
        },
        Lang::En => if str_eq(key, "panel") {
            "Woxel Panel"
        } else if str_eq(key, "open_panel") {
            "🛠 Open panel"
        } else if str_eq(key, "rules") {
            "📜 Rules"
        } else if str_eq(key, "help") {
            "ℹ️ Help"
        } else {
            ""
        },
    }
}

} // verus!
