//! The keyboards that the bot shows, as plain rows of buttons.

use crate::bot::handlers::{callback_route, rights_chat, verification, CallbackRoute};
use crate::text::{
    decimal, fields, has_prefix, is_digit, law_decimal_reads_back_i64,
    law_decimal_reads_back_u64, lemma_decimal_is_plain, lemma_fields_cut, lemma_fields_of_plain,
    push_decimal, push_decimal_u64,
};
use vstd::prelude::*;
use vstd::string::StringExecFns;

verus! {

/// What a press of a button does.
#[derive(Debug, Clone, PartialEq, Eq)]
pub enum Press {
    /// It opens this URL.
    Url(String),
    /// It sends this callback to the bot.
    Callback(String),
}

/// A button of a keyboard.
#[derive(Debug, Clone, PartialEq, Eq)]
pub struct Button {
    pub label: String,
    pub press: Press,
}

/// A button as the texts it holds.
pub struct Key {
    pub label: Seq<char>,
    /// Whether a press opens a URL; else it sends a callback.
    pub link: bool,
    /// The URL or the callback.
    pub target: Seq<char>,
}

impl View for Button {
    type V = Key;

    open spec fn view(&self) -> Key {
        match self.press {
            Press::Url(url) => Key { label: self.label@, link: true, target: url@ },
            Press::Callback(data) => Key { label: self.label@, link: false, target: data@ },
        }
    }
}

/// A button that sends `data`.
pub open spec fn callback_key(label: Seq<char>, data: Seq<char>) -> Key {
    Key { label, link: false, target: data }
}

/// A button that opens `url`.
pub open spec fn link_key(label: Seq<char>, url: Seq<char>) -> Key {
    Key { label, link: true, target: url }
}

/// The buttons of a keyboard, row by row.
pub open spec fn layout(rows: Seq<Vec<Button>>) -> Seq<Seq<Key>> {
    rows.map_values(|row: Vec<Button>| row@.map_values(|b: Button| b@))
}

/// The callback of the button that asks for the sender's rights in `chat_id`.
pub open spec fn rights_data(chat_id: i64) -> Seq<char> {
    "check_rights:"@ + decimal(chat_id as int)
}

/// The callback of the button that asks for the rules of `chat_id`.
pub open spec fn rules_data(chat_id: i64) -> Seq<char> {
    "rules:"@ + decimal(chat_id as int)
}

/// The callback of the button by which `user_id` proves in `chat_id` to be no bot.
pub open spec fn verify_data(chat_id: i64, user_id: u64) -> Seq<char> {
    "verify:"@ + decimal(chat_id as int) + ":"@ + decimal(user_id as int)
}

/// The link that opens the panel of `chat_id` in a private chat with the bot.
pub open spec fn panel_link(bot_username: Seq<char>, chat_id: i64) -> Seq<char> {
    "https://t.me/"@ + bot_username + "?start=panel_"@ + decimal(chat_id as int)
}

/// The keyboard under the panel message of a group.
pub open spec fn group_panel(bot_username: Seq<char>, chat_id: i64) -> Seq<Seq<Key>> {
    seq![
        seq![link_key("🛠 Открыть панель"@, panel_link(bot_username, chat_id))],
        seq![
            callback_key("✅ Проверить права"@, rights_data(chat_id)),
            callback_key("📜 Правила"@, rules_data(chat_id)),
        ],
        seq![callback_key("ℹ️ Справка"@, "help"@)],
    ]
}

/// The main menu of a private chat: one button to a row.
pub open spec fn main_menu() -> Seq<Seq<Key>> {
    seq![
        seq![callback_key("Выбрать чат"@, "menu:chats"@)],
        seq![callback_key("Настройки модерации"@, "menu:mod"@)],
        seq![callback_key("Фильтры"@, "menu:filters"@)],
        seq![callback_key("Ссылки"@, "menu:links"@)],
        seq![callback_key("Антифлуд"@, "menu:flood"@)],
        seq![callback_key("Антирейд/локдаун"@, "menu:raid"@)],
        seq![callback_key("Приветствие/верификация"@, "menu:welcome"@)],
        seq![callback_key("Логи"@, "menu:logs"@)],
        seq![callback_key("Dry-run сообщения"@, "menu:dryrun"@)],
        seq![callback_key("Статус/диагностика"@, "menu:status"@)],
    ]
}

/// A button with `label` that sends `data`.
fn callback_button(label: &str, data: String) -> (button: Button)
    ensures
        button@ == callback_key(label@, data@),
{
    Button { label: String::from_str(label), press: Press::Callback(data) }
}

/// A row of one button.
fn row_of(button: Button) -> (row: Vec<Button>)
    ensures
        row@ == seq![button],
{
    let mut row: Vec<Button> = Vec::new();
    row.push(button);
    row
}

/// A row of one button with `label` that sends `data`.
fn menu_row(label: &str, data: &str) -> (row: Vec<Button>)
    ensures
        row@.map_values(|b: Button| b@) == seq![callback_key(label@, data@)],
{
    let row = row_of(callback_button(label, String::from_str(data)));
    assert(row@.map_values(|b: Button| b@) == seq![callback_key(label@, data@)]);
    row
}

/// `head` followed by the decimal notation of `chat_id`.
fn chat_data(head: &str, chat_id: i64) -> (data: String)
    ensures
        data@ == head@ + decimal(chat_id as int),
{
    let mut data = String::from_str(head);
    push_decimal(&mut data, chat_id);
    data
}

/// The button by which `user_id` proves in `chat_id` to be no bot.
pub fn verification_button(chat_id: i64, user_id: u64) -> (button: Button)
    ensures
        button@ == callback_key("✅ Я не бот"@, verify_data(chat_id, user_id)),
{
    let mut data = chat_data("verify:", chat_id);
    data.append(":");
    push_decimal_u64(&mut data, user_id);
    callback_button("✅ Я не бот", data)
}

/// The keyboard under the panel message of the group `chat_id`: a link to
/// the panel in a private chat with the bot `bot_username`, then the buttons
/// for the sender's rights and for the rules, then the help.
pub fn group_panel_keyboard(bot_username: &str, chat_id: i64) -> (rows: Vec<Vec<Button>>)
    ensures
        layout(rows@) == group_panel(bot_username@, chat_id),
{
    let mut link = String::from_str("https://t.me/");
    link.append(bot_username);
    link.append("?start=panel_");
    push_decimal(&mut link, chat_id);
    let open = Button { label: String::from_str("🛠 Открыть панель"), press: Press::Url(link) };
    let mut second: Vec<Button> = Vec::new();
    second.push(callback_button("✅ Проверить права", chat_data("check_rights:", chat_id)));
    second.push(callback_button("📜 Правила", chat_data("rules:", chat_id)));
    let mut rows: Vec<Vec<Button>> = Vec::new();
    rows.push(row_of(open));
    rows.push(second);
    rows.push(menu_row("ℹ️ Справка", "help"));
    proof {
        let shown = layout(rows@);
        let wanted = group_panel(bot_username@, chat_id);
        assert(shown.len() == 3);
        assert(shown[0] == wanted[0]);
        assert(shown[1] == wanted[1]);
        assert(shown[2] == wanted[2]);
        assert(shown == wanted);
    }
    rows
}

/// The main menu of a private chat.
pub fn private_main_menu() -> (rows: Vec<Vec<Button>>)
    ensures
        layout(rows@) == main_menu(),
{
    let mut rows: Vec<Vec<Button>> = Vec::new();
    rows.push(menu_row("Выбрать чат", "menu:chats"));
    rows.push(menu_row("Настройки модерации", "menu:mod"));
    rows.push(menu_row("Фильтры", "menu:filters"));
    rows.push(menu_row("Ссылки", "menu:links"));
    rows.push(menu_row("Антифлуд", "menu:flood"));
    rows.push(menu_row("Антирейд/локдаун", "menu:raid"));
    rows.push(menu_row("Приветствие/верификация", "menu:welcome"));
    rows.push(menu_row("Логи", "menu:logs"));
    rows.push(menu_row("Dry-run сообщения", "menu:dryrun"));
    rows.push(menu_row("Статус/диагностика", "menu:status"));
    proof {
        let shown = layout(rows@);
        let wanted = main_menu();
        assert(shown.len() == 10);
        assert forall|i: int| 0 <= i < 10 implies shown[i] == wanted[i] by {}
        assert(shown == wanted);
    }
    rows
}

/// The heads of the callbacks, spelled out.
proof fn heads_spelled()
    ensures
        "check_rights:"@ == seq!['c', 'h', 'e', 'c', 'k', '_', 'r', 'i', 'g', 'h', 't', 's'] + seq![
            ':',
        ],
        "rules:"@ == seq!['r', 'u', 'l', 'e', 's'] + seq![':'],
        "menu:"@ == seq!['m', 'e', 'n', 'u'] + seq![':'],
        "verify:"@ == seq!['v', 'e', 'r', 'i', 'f', 'y'] + seq![':'],
        "help"@ == seq!['h', 'e', 'l', 'p'],
        ":"@ == seq![':'],
{
    reveal_strlit("check_rights:");
    reveal_strlit("rules:");
    reveal_strlit("menu:");
    reveal_strlit("verify:");
    reveal_strlit("help");
    reveal_strlit(":");
    assert("check_rights:"@ =~= seq!['c', 'h', 'e', 'c', 'k', '_', 'r', 'i', 'g', 'h', 't', 's']
        + seq![':']);
    assert("rules:"@ =~= seq!['r', 'u', 'l', 'e', 's'] + seq![':']);
    assert("menu:"@ =~= seq!['m', 'e', 'n', 'u'] + seq![':']);
    assert("verify:"@ =~= seq!['v', 'e', 'r', 'i', 'f', 'y'] + seq![':']);
    assert("help"@ =~= seq!['h', 'e', 'l', 'p']);
    assert(":"@ =~= seq![':']);
}

/// A text that starts with `head` starts with no text that begins otherwise.
proof fn other_head(data: Seq<char>, head: Seq<char>, other: Seq<char>)
    requires
        has_prefix(data, head),
        head.len() > 0,
        other.len() > 0,
        head[0] != other[0],
    ensures
        !has_prefix(data, other),
        data != other,
{
    assert(data.subrange(0, head.len() as int)[0] == data[0]);
    if has_prefix(data, other) {
        assert(data.subrange(0, other.len() as int)[0] == data[0]);
    }
}

/// The decimal notation of a number holds no colon.
proof fn decimal_has_no_colon(n: int)
    ensures
        forall|i: int| 0 <= i < decimal(n).len() ==> decimal(n)[i] != ':',
{
    lemma_decimal_is_plain(n);
    assert forall|i: int| 0 <= i < decimal(n).len() implies decimal(n)[i] != ':' by {
        assert(is_digit(decimal(n)[i]) || decimal(n)[i] == '-');
    }
}

/// The button for the sender's rights names its chat: a press of the button
/// that the group panel of `chat_id` holds asks for the rights in `chat_id`,
/// whatever chat the message with the button is in.
pub proof fn law_rights_button_names_its_chat(chat_id: i64, from_id: u64, shown_in: i64)
    ensures
        callback_route(rights_data(chat_id), true, from_id, shown_in) == (
            CallbackRoute::CheckRights { chat_id }
        ),
{
    heads_spelled();
    let head = seq!['c', 'h', 'e', 'c', 'k', '_', 'r', 'i', 'g', 'h', 't', 's'];
    let number = decimal(chat_id as int);
    let data = rights_data(chat_id);
    assert(data == head + seq![':'] + number);
    assert(data.subrange(0, 13) == "check_rights:"@);
    decimal_has_no_colon(chat_id as int);
    lemma_fields_cut(head, ':', number, Seq::empty());
    lemma_fields_of_plain(number, ':', Seq::empty());
    assert(Seq::<char>::empty() + number == number);
    let parts = fields(data, ':');
    assert(parts == seq![Seq::<char>::empty() + head] + seq![number]);
    assert(parts[1] == number);
    law_decimal_reads_back_i64(chat_id);
    assert(rights_chat(data, shown_in) == chat_id);
}

/// The button for the rules points to the rules.
pub proof fn law_rules_button_points_to_the_rules(chat_id: i64, from_id: u64, shown_in: i64)
    ensures
        callback_route(rules_data(chat_id), true, from_id, shown_in) == CallbackRoute::Rules,
{
    heads_spelled();
    let data = rules_data(chat_id);
    assert(data.subrange(0, 6) == "rules:"@);
    other_head(data, "rules:"@, "check_rights:"@);
    other_head(data, "rules:"@, "help"@);
}

/// The verification button is for its user: a press of the button that was
/// made for `user_id` passes the verification exactly when it is `user_id`
/// who pressed.
pub proof fn law_verification_button_is_for_its_user(
    chat_id: i64,
    user_id: u64,
    from_id: u64,
    shown_in: i64,
)
    ensures
        callback_route(verify_data(chat_id, user_id), true, from_id, shown_in) == (
            CallbackRoute::Verify { passed: from_id == user_id }
        ),
{
    heads_spelled();
    let head = seq!['v', 'e', 'r', 'i', 'f', 'y'];
    let chat = decimal(chat_id as int);
    let user = decimal(user_id as int);
    let data = verify_data(chat_id, user_id);
    let tail = chat + seq![':'] + user;
    assert(data == head + seq![':'] + tail);
    assert(data.subrange(0, 7) == "verify:"@);
    other_head(data, "verify:"@, "check_rights:"@);
    other_head(data, "verify:"@, "help"@);
    other_head(data, "verify:"@, "rules:"@);
    other_head(data, "verify:"@, "menu:"@);
    decimal_has_no_colon(chat_id as int);
    decimal_has_no_colon(user_id as int);
    lemma_fields_cut(head, ':', tail, Seq::empty());
    lemma_fields_cut(chat, ':', user, Seq::empty());
    lemma_fields_of_plain(user, ':', Seq::empty());
    assert(Seq::<char>::empty() + user == user);
    let parts = fields(data, ':');
    assert(parts == seq![Seq::<char>::empty() + head] + (seq![Seq::<char>::empty() + chat] + seq![
        user,
    ]));
    assert(parts.len() == 3);
    assert(parts[2] == user);
    law_decimal_reads_back_u64(user_id);
    assert(verification(data, from_id) == Some(from_id == user_id));
}

/// The buttons of the main menu open the menu, and the help button of the
/// group panel opens the help.
pub proof fn law_menu_buttons_open_the_menu(from_id: u64, shown_in: i64)
    ensures
        forall|i: int|
            0 <= i < main_menu().len() ==> callback_route(
                (#[trigger] main_menu()[i])[0].target,
                true,
                from_id,
                shown_in,
            ) == CallbackRoute::Menu,
        callback_route("help"@, true, from_id, shown_in) == CallbackRoute::Help,
{
    heads_spelled();
    reveal_strlit("menu:chats");
    reveal_strlit("menu:mod");
    reveal_strlit("menu:filters");
    reveal_strlit("menu:links");
    reveal_strlit("menu:flood");
    reveal_strlit("menu:raid");
    reveal_strlit("menu:welcome");
    reveal_strlit("menu:logs");
    reveal_strlit("menu:dryrun");
    reveal_strlit("menu:status");
    assert("help"@.subrange(0, 4) =~= "help"@);
    other_head("help"@, "help"@, "check_rights:"@);
    assert forall|i: int| 0 <= i < main_menu().len() implies callback_route(
        (#[trigger] main_menu()[i])[0].target,
        true,
        from_id,
        shown_in,
    ) == CallbackRoute::Menu by {
        let data = main_menu()[i][0].target;
        assert(data.subrange(0, 5) =~= "menu:"@);
        other_head(data, "menu:"@, "check_rights:"@);
        other_head(data, "menu:"@, "help"@);
        other_head(data, "menu:"@, "rules:"@);
    }
}

} // verus!
