//! The moderation engine: what is done about one message, step by step.
//!
//! The engine itself performs no input or output. An evaluation is a value
//! that the caller carries from step to step: each step takes what the last
//! action brought back and names the next action, until the evaluation is
//! closed with a verdict or a failure.

pub mod flood;
pub mod rules;

use crate::db::models::{ChatSettings, DomainRule, Filter};
use crate::moderation::flood::{follows, in_order, slid, window_of, FloodTracker};
use crate::moderation::rules::{
    check_filters, check_links, entry_covers, filters_match, law_denied_domain_violates,
    links_violation, ViolationKind,
};
use crate::text::{decimal, push_decimal, str_eq};
use crate::utils::text_domains;
use vstd::prelude::*;
use vstd::string::StringExecFns;

verus! {

/// What the engine reads of a message that arrived in a chat.
#[derive(Debug, Clone)]
pub struct Inbound {
    pub chat_id: i64,
    pub message_id: i32,
    /// The sender, where the message has one.
    pub sender: Option<i64>,
    /// The text of the message; empty where it has none.
    pub text: String,
}

/// A message under evaluation: one with a sender and a text.
#[derive(Debug, Clone)]
pub struct Case {
    pub chat_id: i64,
    pub message_id: i32,
    pub user_id: i64,
    pub text: String,
}

/// What is imposed on an offender besides the warning.
#[derive(Debug, Clone, Copy, PartialEq, Eq, Structural)]
pub enum Sanction {
    Warn,
    Mute,
    Ban,
}

/// What is to be done about a violation.
#[derive(Debug, Clone, Copy, PartialEq, Eq, Structural)]
pub struct Penalty {
    pub kind: ViolationKind,
    pub sanction: Sanction,
    pub mute_minutes: i32,
}

/// The steps of an enforcement, in their order.
#[derive(Debug, Clone, Copy, PartialEq, Eq, Structural)]
pub enum Step {
    Delete,
    Count,
    Restrict,
    Ban,
    Audit,
    Notify,
}

/// Where an evaluation stands: what it knows and what it waits for.
#[derive(Debug, Clone)]
pub enum Evaluation {
    /// Waiting for the chat's policy.
    AwaitSettings { case: Case },
    /// Waiting for what the store knows of the sender.
    AwaitSender { case: Case, settings: ChatSettings },
    /// Waiting for the chat's enabled content filters.
    AwaitFilters { case: Case, settings: ChatSettings },
    /// Waiting for the chat's enabled domain rules.
    AwaitDomains { case: Case, settings: ChatSettings },
    /// A violation was found; waiting for the outcome of `step`. `warns` is
    /// the offender's warning count once it has been counted.
    Enforcing { case: Case, penalty: Penalty, step: Step, warns: i32 },
    /// Closed: no further step is taken.
    Finished,
}

/// What the last action brought back.
#[derive(Debug, Clone)]
pub enum Event {
    SettingsLoaded(ChatSettings),
    /// What the store knows of the sender in this chat; a sender it does not
    /// know is not whitelisted.
    SenderLoaded { whitelisted: bool },
    FiltersLoaded(Vec<Filter>),
    DomainsLoaded(Vec<DomainRule>),
    /// The offender's warning count after the increment.
    WarnCounted(i32),
    /// A call to the chat platform was attempted, whatever came of it, or the
    /// audit record was written.
    Done,
    /// The policy store failed.
    StoreFailed,
}

/// Why an evaluation was given up.
#[derive(Debug, Clone, Copy, PartialEq, Eq, Structural)]
pub enum Failure {
    /// The policy store failed; the message is left unmoderated.
    Store,
    /// The event does not answer the action that was asked for.
    Unexpected,
}

/// What the caller is asked to do next.
#[derive(Debug, Clone, Copy, PartialEq, Eq, Structural)]
pub enum Action {
    LoadSettings { chat_id: i64 },
    LoadSender { chat_id: i64, user_id: i64 },
    LoadFilters { chat_id: i64 },
    LoadDomains { chat_id: i64 },
    DeleteMessage { chat_id: i64, message_id: i32 },
    IncrementWarn { chat_id: i64, user_id: i64 },
    /// Take the offender's right to send away for `minutes` minutes from now.
    Restrict { chat_id: i64, user_id: i64, minutes: i32 },
    Ban { chat_id: i64, user_id: i64 },
    /// Append an audit record with `audit_action(kind)` and `reason(kind)`.
    WriteAudit { chat_id: i64, user_id: i64, kind: ViolationKind },
    /// Send the chat the text `notice(warns, reason(kind))`.
    Notify { chat_id: i64, kind: ViolationKind, warns: i32 },
    /// The evaluation is over, with this verdict.
    Finish(Option<ViolationKind>),
    /// The evaluation is over without a verdict.
    Fail(Failure),
}

/// The windows of the flood tracker: for each sender (chat, user) its recent times.
pub type Table = Map<(i64, i64), Seq<u128>>;

/// The sanction that a chat's setting names: `mute`, `ban`, or else a warning alone.
pub open spec fn named_sanction(default_sanction: Seq<char>) -> Sanction {
    if default_sanction == "mute"@ {
        Sanction::Mute
    } else if default_sanction == "ban"@ {
        Sanction::Ban
    } else {
        Sanction::Warn
    }
}

/// The penalty for a violation: the chat's default sanction, but always a
/// mute for flooding.
pub open spec fn due_penalty(kind: ViolationKind, settings: ChatSettings) -> Penalty {
    Penalty {
        kind,
        sanction: if kind == ViolationKind::Flood {
            Sanction::Mute
        } else {
            named_sanction(settings.default_sanction@)
        },
        mute_minutes: settings.mute_minutes,
    }
}

/// The action that carries out `step`.
pub open spec fn action_of(case: Case, penalty: Penalty, step: Step, warns: i32) -> Action {
    match step {
        Step::Delete => Action::DeleteMessage { chat_id: case.chat_id, message_id: case.message_id },
        Step::Count => Action::IncrementWarn { chat_id: case.chat_id, user_id: case.user_id },
        Step::Restrict => Action::Restrict {
            chat_id: case.chat_id,
            user_id: case.user_id,
            minutes: penalty.mute_minutes,
        },
        Step::Ban => Action::Ban { chat_id: case.chat_id, user_id: case.user_id },
        Step::Audit => Action::WriteAudit {
            chat_id: case.chat_id,
            user_id: case.user_id,
            kind: penalty.kind,
        },
        Step::Notify => Action::Notify { chat_id: case.chat_id, kind: penalty.kind, warns },
    }
}

/// The step that follows `step` in an enforcement, if any: the message is
/// deleted, the warning counted, the sanction applied where there is one, the
/// audit record written and the chat notified.
pub open spec fn step_after(step: Step, sanction: Sanction) -> Option<Step> {
    match step {
        Step::Delete => Some(Step::Count),
        Step::Count => Some(
            match sanction {
                Sanction::Mute => Step::Restrict,
                Sanction::Ban => Step::Ban,
                Sanction::Warn => Step::Audit,
            },
        ),
        Step::Restrict => Some(Step::Audit),
        Step::Ban => Some(Step::Audit),
        Step::Audit => Some(Step::Notify),
        Step::Notify => None,
    }
}

/// Whether `step` is a call to the policy store, whose failure ends the evaluation.
pub open spec fn asks_store(step: Step) -> bool {
    step == Step::Count || step == Step::Audit
}

/// An evaluation that stands at `step` of an enforcement, with the action that carries it out.
pub open spec fn enforcing(case: Case, penalty: Penalty, step: Step, warns: i32) -> (
    Evaluation,
    Action,
) {
    (Evaluation::Enforcing { case, penalty, step, warns }, action_of(case, penalty, step, warns))
}

/// The start of an evaluation. A message without a sender or without text
/// is not evaluated; for any other the chat's policy is asked for.
pub open spec fn opening(msg: Inbound) -> (Evaluation, Action) {
    match msg.sender {
        Some(user_id) if msg.text@.len() > 0 => (
            Evaluation::AwaitSettings {
                case: Case {
                    chat_id: msg.chat_id,
                    message_id: msg.message_id,
                    user_id,
                    text: msg.text,
                },
            },
            Action::LoadSettings { chat_id: msg.chat_id },
        ),
        _ => (Evaluation::Finished, Action::Finish(None)),
    }
}

/// The step on the chat's policy: where moderation is switched off the
/// evaluation ends without a verdict, else the sender is asked for.
pub open spec fn on_settings(case: Case, settings: ChatSettings) -> (Evaluation, Action) {
    if settings.moderation_enabled {
        (
            Evaluation::AwaitSender { case, settings },
            Action::LoadSender { chat_id: case.chat_id, user_id: case.user_id },
        )
    } else {
        (Evaluation::Finished, Action::Finish(None))
    }
}

/// The step on the sender: a whitelisted sender is exempt from every check,
/// so the evaluation ends without a verdict before any check has run; for
/// any other the content filters are asked for.
pub open spec fn on_sender(case: Case, settings: ChatSettings, whitelisted: bool) -> (
    Evaluation,
    Action,
) {
    if whitelisted {
        (Evaluation::Finished, Action::Finish(None))
    } else {
        (
            Evaluation::AwaitFilters { case, settings },
            Action::LoadFilters { chat_id: case.chat_id },
        )
    }
}

/// The step on the content filters: a text that falls under them is
/// enforced as `Filtered`, for any other the domain rules are asked for.
pub open spec fn on_filters(case: Case, settings: ChatSettings, filters: Seq<Filter>) -> (
    Evaluation,
    Action,
) {
    if filters_match(case.text@, filters) {
        enforcing(case, due_penalty(ViolationKind::Filtered, settings), Step::Delete, 0)
    } else {
        (
            Evaluation::AwaitDomains { case, settings },
            Action::LoadDomains { chat_id: case.chat_id },
        )
    }
}

/// Whether the text of `case` breaks the link policy.
pub open spec fn links_denied(case: Case, settings: ChatSettings, rules: Seq<DomainRule>) -> bool {
    links_violation(text_domains(case.text@), settings.links_mode@, rules)
}

/// The sender's window after the message of `case` is recorded at `now`.
pub open spec fn window_after(case: Case, settings: ChatSettings, table: Table, now: u128) -> Seq<
    u128,
> {
    slid(window_of(table, case.chat_id, case.user_id), now, settings.flood_window_sec)
}

/// The step on the domain rules: a text that breaks the link policy is
/// enforced as `LinkDenied`. Any other message is recorded by the flood
/// tracker at `now`; where the sender's window then holds more than the
/// allowed number of messages it is enforced as `Flood`, else the evaluation
/// ends without a verdict.
pub open spec fn on_domains(
    case: Case,
    settings: ChatSettings,
    rules: Seq<DomainRule>,
    table: Table,
    now: u128,
) -> (Evaluation, Action) {
    if links_denied(case, settings, rules) {
        enforcing(case, due_penalty(ViolationKind::LinkDenied, settings), Step::Delete, 0)
    } else if window_after(case, settings, table, now).len() > settings.flood_max_msgs {
        enforcing(case, due_penalty(ViolationKind::Flood, settings), Step::Delete, 0)
    } else {
        (Evaluation::Finished, Action::Finish(None))
    }
}

/// The flood tracker's windows after the step on the domain rules: the
/// message is recorded unless it broke the link policy.
pub open spec fn table_after_domains(
    case: Case,
    settings: ChatSettings,
    rules: Seq<DomainRule>,
    table: Table,
    now: u128,
) -> Table {
    if links_denied(case, settings, rules) {
        table
    } else {
        table.insert((case.chat_id, case.user_id), window_after(case, settings, table, now))
    }
}

/// The step on the outcome of an enforcement step. The warning count is
/// taken from the event that answers the counting; a failure of the store
/// ends the evaluation; what came of a call to the chat platform is of no
/// account. After the last step the evaluation ends with the verdict.
pub open spec fn on_enforced(case: Case, penalty: Penalty, step: Step, warns: i32, event: Event) -> (
    Evaluation,
    Action,
) {
    let counted = match event {
        Event::WarnCounted(n) if step == Step::Count => Some(n),
        Event::Done if step != Step::Count => Some(warns),
        _ => None,
    };
    match counted {
        Some(n) => match step_after(step, penalty.sanction) {
            Some(next) => enforcing(case, penalty, next, n),
            None => (Evaluation::Finished, Action::Finish(Some(penalty.kind))),
        },
        None => (
            Evaluation::Finished,
            Action::Fail(
                if event is StoreFailed && asks_store(step) {
                    Failure::Store
                } else {
                    Failure::Unexpected
                },
            ),
        ),
    }
}

/// The end of an evaluation whose last action was not answered as expected.
pub open spec fn given_up(event: Event) -> (Evaluation, Action) {
    (
        Evaluation::Finished,
        Action::Fail(
            if event is StoreFailed {
                Failure::Store
            } else {
                Failure::Unexpected
            },
        ),
    )
}

/// One step of an evaluation: the state and the action that follow `state`
/// on `event`, where the flood tracker holds `table` and its clock shows `now`.
pub open spec fn next(state: Evaluation, event: Event, table: Table, now: u128) -> (
    Evaluation,
    Action,
) {
    match state {
        Evaluation::AwaitSettings { case } => match event {
            Event::SettingsLoaded(settings) => on_settings(case, settings),
            _ => given_up(event),
        },
        Evaluation::AwaitSender { case, settings } => match event {
            Event::SenderLoaded { whitelisted } => on_sender(case, settings, whitelisted),
            _ => given_up(event),
        },
        Evaluation::AwaitFilters { case, settings } => match event {
            Event::FiltersLoaded(filters) => on_filters(case, settings, filters@),
            _ => given_up(event),
        },
        Evaluation::AwaitDomains { case, settings } => match event {
            Event::DomainsLoaded(rules) => on_domains(case, settings, rules@, table, now),
            _ => given_up(event),
        },
        Evaluation::Enforcing { case, penalty, step, warns } => on_enforced(
            case,
            penalty,
            step,
            warns,
            event,
        ),
        Evaluation::Finished => (Evaluation::Finished, Action::Fail(Failure::Unexpected)),
    }
}

/// The flood tracker's windows after one step: only the step on the domain
/// rules records anything.
pub open spec fn next_table(state: Evaluation, event: Event, table: Table, now: u128) -> Table {
    match (state, event) {
        (Evaluation::AwaitDomains { case, settings }, Event::DomainsLoaded(rules)) => {
            table_after_domains(case, settings, rules@, table, now)
        },
        _ => table,
    }
}

/// What an evaluation has come to.
pub struct Course {
    /// Where it stands.
    pub state: Evaluation,
    /// The actions that its steps asked for, in order.
    pub actions: Seq<Action>,
    /// The flood tracker's windows.
    pub table: Table,
}

/// The course of an evaluation that starts in `state` and is answered by
/// `events`, one after the other, while the flood tracker's clock shows `now`.
pub open spec fn run(state: Evaluation, events: Seq<Event>, table: Table, now: u128) -> Course
    decreases events.len(),
{
    if events.len() == 0 {
        Course { state, actions: Seq::empty(), table }
    } else {
        let (then, action) = next(state, events[0], table, now);
        let rest = run(then, events.drop_first(), next_table(state, events[0], table, now), now);
        Course { state: rest.state, actions: seq![action] + rest.actions, table: rest.table }
    }
}

/// The verdict on a message: nothing where moderation is switched off or
/// the sender is whitelisted; else the first of content filter, link policy
/// and flood limit that the message breaks, in this order; else nothing.
pub open spec fn verdict(
    case: Case,
    settings: ChatSettings,
    whitelisted: bool,
    filters: Seq<Filter>,
    rules: Seq<DomainRule>,
    table: Table,
    now: u128,
) -> Option<ViolationKind> {
    if !settings.moderation_enabled || whitelisted {
        None
    } else if filters_match(case.text@, filters) {
        Some(ViolationKind::Filtered)
    } else if links_denied(case, settings, rules) {
        Some(ViolationKind::LinkDenied)
    } else if window_after(case, settings, table, now).len() > settings.flood_max_msgs {
        Some(ViolationKind::Flood)
    } else {
        None
    }
}

/// The events that answer the steps of an enforcement when the store does
/// not fail and the offender's warning count comes back as `warns`.
pub open spec fn enforcement_answers(sanction: Sanction, warns: i32) -> Seq<Event> {
    let applied = if sanction == Sanction::Warn {
        Seq::<Event>::empty()
    } else {
        seq![Event::Done]
    };
    seq![Event::Done, Event::WarnCounted(warns)] + applied + seq![Event::Done, Event::Done]
}

/// The actions of an enforcement after the deletion of the message: the
/// warning is counted, the sanction applied where there is one, the audit
/// record written, the chat notified, and the evaluation ends with the verdict.
pub open spec fn enforcement_actions(case: Case, penalty: Penalty, warns: i32) -> Seq<Action> {
    let applied = match penalty.sanction {
        Sanction::Warn => Seq::<Action>::empty(),
        Sanction::Mute => seq![action_of(case, penalty, Step::Restrict, warns)],
        Sanction::Ban => seq![action_of(case, penalty, Step::Ban, warns)],
    };
    seq![action_of(case, penalty, Step::Count, 0)] + applied + seq![
        action_of(case, penalty, Step::Audit, warns),
        action_of(case, penalty, Step::Notify, warns),
        Action::Finish(Some(penalty.kind)),
    ]
}

/// With moderation switched off nothing happens: the evaluation of a message
/// asks for the chat's policy and ends without a verdict as soon as the
/// policy says that moderation is off. The flood tracker is left as it was,
/// no warning is counted and no audit record is written.
pub proof fn law_disabled_moderation_is_silent(
    msg: Inbound,
    settings: ChatSettings,
    table: Table,
    now: u128,
)
    requires
        !settings.moderation_enabled,
    ensures
        opening(msg).1 == (Action::LoadSettings { chat_id: msg.chat_id }) || opening(msg)
            == (Evaluation::Finished, Action::Finish(None)),
        run(opening(msg).0, seq![Event::SettingsLoaded(settings)], table, now).table == table,
        opening(msg).0 is AwaitSettings ==> run(
            opening(msg).0,
            seq![Event::SettingsLoaded(settings)],
            table,
            now,
        ) == (Course { state: Evaluation::Finished, actions: seq![Action::Finish(None)], table }),
{
    reveal_with_fuel(run, 2);
    let events = seq![Event::SettingsLoaded(settings)];
    assert(events.drop_first() == Seq::<Event>::empty());
    let course = run(opening(msg).0, events, table, now);
    if opening(msg).0 is AwaitSettings {
        assert(course.actions == seq![Action::Finish(None)]);
    }
}

/// Only the flood check touches the flood tracker: a step changes its
/// windows at most where it takes the domain rules of a message that does
/// not break the link policy, and then by recording that message.
pub proof fn law_only_the_flood_check_records(
    state: Evaluation,
    event: Event,
    table: Table,
    now: u128,
)
    ensures
        next_table(state, event, table, now) != table ==> {
            &&& state matches Evaluation::AwaitDomains { case, settings }
            &&& event matches Event::DomainsLoaded(rules)
            &&& !links_denied(case, settings, rules@)
            &&& next_table(state, event, table, now) == table.insert(
                (case.chat_id, case.user_id),
                window_after(case, settings, table, now),
            )
        },
{
}

/// A whitelisted sender is exempt from every check: with moderation
/// switched on, the evaluation of a message of a whitelisted sender ends
/// without a verdict as soon as the store says so. No filter and no domain
/// rule is loaded, and the flood tracker is left as it was.
pub proof fn law_whitelisted_sender_is_exempt(
    case: Case,
    settings: ChatSettings,
    table: Table,
    now: u128,
)
    requires
        settings.moderation_enabled,
    ensures
        run(
            Evaluation::AwaitSettings { case },
            seq![Event::SettingsLoaded(settings), Event::SenderLoaded { whitelisted: true }],
            table,
            now,
        ) == (Course {
            state: Evaluation::Finished,
            actions: seq![
                Action::LoadSender { chat_id: case.chat_id, user_id: case.user_id },
                Action::Finish(None),
            ],
            table,
        }),
{
    reveal_with_fuel(run, 3);
    let events = seq![Event::SettingsLoaded(settings), Event::SenderLoaded { whitelisted: true }];
    assert(events.drop_first() == seq![Event::SenderLoaded { whitelisted: true }]);
    assert(events.drop_first().drop_first() == Seq::<Event>::empty());
    let course = run(Evaluation::AwaitSettings { case }, events, table, now);
    assert(course.actions == seq![
        Action::LoadSender { chat_id: case.chat_id, user_id: case.user_id },
        Action::Finish(None),
    ]);
}

/// The checks run in a fixed order and the first violation decides. With
/// moderation switched on, a sender who is not whitelisted and the store
/// answering, a message that breaks nothing ends without a verdict after the
/// policy, the sender, the filters and the domain rules were loaded, and
/// nothing else was asked for. A message that breaks something enters
/// enforcement with the penalty due for the first check it fails, right
/// after the load that this check needed; the first action of the
/// enforcement is the deletion of the message.
pub proof fn law_first_violation_decides(
    case: Case,
    settings: ChatSettings,
    filters: Vec<Filter>,
    rules: Vec<DomainRule>,
    table: Table,
    now: u128,
)
    requires
        settings.moderation_enabled,
    ensures
        ({
            let start = Evaluation::AwaitSettings { case };
            let loads = seq![
                Event::SettingsLoaded(settings),
                Event::SenderLoaded { whitelisted: false },
                Event::FiltersLoaded(filters),
                Event::DomainsLoaded(rules),
            ];
            let delete = Action::DeleteMessage {
                chat_id: case.chat_id,
                message_id: case.message_id,
            };
            let load_sender = Action::LoadSender { chat_id: case.chat_id, user_id: case.user_id };
            let load_filters = Action::LoadFilters { chat_id: case.chat_id };
            let load_domains = Action::LoadDomains { chat_id: case.chat_id };
            match verdict(case, settings, false, filters@, rules@, table, now) {
                None => {
                    let course = run(start, loads, table, now);
                    &&& course.state == Evaluation::Finished
                    &&& course.actions == seq![
                        load_sender,
                        load_filters,
                        load_domains,
                        Action::Finish(None),
                    ]
                },
                Some(kind) => {
                    let course = run(
                        start,
                        loads.take(if kind == ViolationKind::Filtered { 3int } else { 4int }),
                        table,
                        now,
                    );
                    &&& course.state == (Evaluation::Enforcing {
                        case,
                        penalty: due_penalty(kind, settings),
                        step: Step::Delete,
                        warns: 0,
                    })
                    &&& course.actions == if kind == ViolationKind::Filtered {
                        seq![load_sender, load_filters, delete]
                    } else {
                        seq![load_sender, load_filters, load_domains, delete]
                    }
                    &&& kind == ViolationKind::Filtered ==> course.table == table
                },
            }
        }),
{
    reveal_with_fuel(run, 5);
    let start = Evaluation::AwaitSettings { case };
    let sender = Event::SenderLoaded { whitelisted: false };
    let loads = seq![
        Event::SettingsLoaded(settings),
        sender,
        Event::FiltersLoaded(filters),
        Event::DomainsLoaded(rules),
    ];
    let three = loads.take(3);
    assert(loads.drop_first() == seq![
        sender,
        Event::FiltersLoaded(filters),
        Event::DomainsLoaded(rules),
    ]);
    assert(loads.drop_first().drop_first() == seq![
        Event::FiltersLoaded(filters),
        Event::DomainsLoaded(rules),
    ]);
    assert(loads.drop_first().drop_first().drop_first() == seq![Event::DomainsLoaded(rules)]);
    assert(loads.drop_first().drop_first().drop_first().drop_first() == Seq::<Event>::empty());
    assert(loads.take(4) == loads);
    assert(three.drop_first() == seq![sender, Event::FiltersLoaded(filters)]);
    assert(three.drop_first().drop_first() == seq![Event::FiltersLoaded(filters)]);
    assert(three.drop_first().drop_first().drop_first() == Seq::<Event>::empty());
    let load_sender = Action::LoadSender { chat_id: case.chat_id, user_id: case.user_id };
    let load_filters = Action::LoadFilters { chat_id: case.chat_id };
    let load_domains = Action::LoadDomains { chat_id: case.chat_id };
    let delete = Action::DeleteMessage { chat_id: case.chat_id, message_id: case.message_id };
    match verdict(case, settings, false, filters@, rules@, table, now) {
        None => {
            let course = run(start, loads, table, now);
            assert(course.actions == seq![
                load_sender,
                load_filters,
                load_domains,
                Action::Finish(None),
            ]);
        },
        Some(kind) => {
            if kind == ViolationKind::Filtered {
                let course = run(start, three, table, now);
                assert(course.actions == seq![load_sender, load_filters, delete]);
            } else {
                let course = run(start, loads, table, now);
                assert(course.actions == seq![load_sender, load_filters, load_domains, delete]);
            }
        },
    }
}

/// A course goes on where it stood: the course over two lists of events,
/// one after the other, is the course over the first, followed by the course
/// over the second from where the first ended.
pub proof fn lemma_run_continues(
    state: Evaluation,
    first: Seq<Event>,
    second: Seq<Event>,
    table: Table,
    now: u128,
)
    ensures
        ({
            let begun = run(state, first, table, now);
            let ended = run(begun.state, second, begun.table, now);
            run(state, first + second, table, now) == (Course {
                state: ended.state,
                actions: begun.actions + ended.actions,
                table: ended.table,
            })
        }),
    decreases first.len(),
{
    let begun = run(state, first, table, now);
    let ended = run(begun.state, second, begun.table, now);
    if first.len() == 0 {
        assert(first + second == second);
        assert(begun.actions + ended.actions == ended.actions);
    } else {
        let all = first + second;
        assert(all[0] == first[0]);
        assert(all.drop_first() == first.drop_first() + second);
        let (then, action) = next(state, first[0], table, now);
        let after = next_table(state, first[0], table, now);
        lemma_run_continues(then, first.drop_first(), second, after, now);
        let rest = run(then, first.drop_first(), after, now);
        assert(seq![action] + (rest.actions + ended.actions) == (seq![action] + rest.actions)
            + ended.actions);
    }
}

/// The events that answer the loads of an evaluation which finds a
/// violation of `kind`: the policy, a sender who is not whitelisted, the
/// filters and, unless the content filter already decided, the domain rules.
pub open spec fn loads_until(
    kind: ViolationKind,
    settings: ChatSettings,
    filters: Vec<Filter>,
    rules: Vec<DomainRule>,
) -> Seq<Event> {
    let loads = seq![
        Event::SettingsLoaded(settings),
        Event::SenderLoaded { whitelisted: false },
        Event::FiltersLoaded(filters),
        Event::DomainsLoaded(rules),
    ];
    loads.take(if kind == ViolationKind::Filtered { 3int } else { 4int })
}

/// The actions that lead to the enforcement of a violation of `kind`: the
/// loads, then the deletion of the message.
pub open spec fn actions_until(kind: ViolationKind, case: Case) -> Seq<Action> {
    let load_sender = Action::LoadSender { chat_id: case.chat_id, user_id: case.user_id };
    let load_filters = Action::LoadFilters { chat_id: case.chat_id };
    let load_domains = Action::LoadDomains { chat_id: case.chat_id };
    let delete = Action::DeleteMessage { chat_id: case.chat_id, message_id: case.message_id };
    if kind == ViolationKind::Filtered {
        seq![load_sender, load_filters, delete]
    } else {
        seq![load_sender, load_filters, load_domains, delete]
    }
}

/// An evaluation ends with its verdict. With moderation switched on, a
/// sender who is not whitelisted and the store answering, the evaluation of
/// a message that breaks something asks for the loads that the deciding
/// check needed, deletes the message, counts the warning, applies the
/// sanction of the penalty due, writes the audit record for the kind of
/// violation, notifies the chat and ends with that kind as its verdict.
pub proof fn law_evaluation_ends_with_the_verdict(
    case: Case,
    settings: ChatSettings,
    filters: Vec<Filter>,
    rules: Vec<DomainRule>,
    warns: i32,
    table: Table,
    now: u128,
)
    requires
        settings.moderation_enabled,
        verdict(case, settings, false, filters@, rules@, table, now) is Some,
    ensures
        ({
            let kind = verdict(case, settings, false, filters@, rules@, table, now)->0;
            let penalty = due_penalty(kind, settings);
            let course = run(
                Evaluation::AwaitSettings { case },
                loads_until(kind, settings, filters, rules) + enforcement_answers(
                    penalty.sanction,
                    warns,
                ),
                table,
                now,
            );
            &&& course.state == Evaluation::Finished
            &&& course.actions == actions_until(kind, case) + enforcement_actions(
                case,
                penalty,
                warns,
            )
            &&& course.actions.last() == Action::Finish(Some(kind))
            &&& course.actions.contains(
                Action::WriteAudit { chat_id: case.chat_id, user_id: case.user_id, kind },
            )
        }),
{
    let kind = verdict(case, settings, false, filters@, rules@, table, now)->0;
    let penalty = due_penalty(kind, settings);
    let start = Evaluation::AwaitSettings { case };
    let loads = loads_until(kind, settings, filters, rules);
    let answers = enforcement_answers(penalty.sanction, warns);
    law_first_violation_decides(case, settings, filters, rules, table, now);
    let begun = run(start, loads, table, now);
    law_enforcement_runs_in_order(case, penalty, warns, begun.table, now);
    lemma_run_continues(start, loads, answers, table, now);
    let course = run(start, loads + answers, table, now);
    let done = enforcement_actions(case, penalty, warns);
    assert(course.actions == actions_until(kind, case) + done);
    let audit = Action::WriteAudit { chat_id: case.chat_id, user_id: case.user_id, kind };
    let before = actions_until(kind, case).len() as int;
    match penalty.sanction {
        Sanction::Warn => {
            assert(done[1] == audit);
            assert(course.actions[before + 1] == audit);
            assert(course.actions[before + 3] == Action::Finish(Some(kind)));
        },
        _ => {
            assert(done[2] == audit);
            assert(course.actions[before + 2] == audit);
            assert(course.actions[before + 4] == Action::Finish(Some(kind)));
        },
    }
}

/// A denied link is enforced. Under `deny_list`, a message that passes the
/// content filter and refers to a domain that an enabled entry of the deny
/// list covers is found guilty of `LinkDenied`, whatever the flood tracker
/// holds; its audit record goes by the name `link`.
pub proof fn law_denied_link_is_enforced(
    case: Case,
    settings: ChatSettings,
    filters: Vec<Filter>,
    rules: Vec<DomainRule>,
    j: int,
    i: int,
    table: Table,
    now: u128,
)
    requires
        settings.moderation_enabled,
        settings.links_mode@ == "deny_list"@,
        !filters_match(case.text@, filters@),
        0 <= j < text_domains(case.text@).len(),
        0 <= i < rules@.len(),
        entry_covers(rules@[i], "deny"@, text_domains(case.text@)[j]),
    ensures
        verdict(case, settings, false, filters@, rules@, table, now) == Some(
            ViolationKind::LinkDenied,
        ),
        next(
            Evaluation::AwaitDomains { case, settings },
            Event::DomainsLoaded(rules),
            table,
            now,
        ) == enforcing(case, due_penalty(ViolationKind::LinkDenied, settings), Step::Delete, 0),
        audit_action_text(ViolationKind::LinkDenied) == "link"@,
{
    law_denied_domain_violates(text_domains(case.text@), rules@, j, i);
}

/// Flooding is always answered with a mute, whatever sanction the chat has
/// set: the penalty names it, and the enforcement restricts the offender for
/// the chat's mute duration right after the warning was counted.
pub proof fn law_flood_always_mutes(case: Case, settings: ChatSettings, warns: i32)
    ensures
        due_penalty(ViolationKind::Flood, settings).sanction == Sanction::Mute,
        on_enforced(
            case,
            due_penalty(ViolationKind::Flood, settings),
            Step::Count,
            0,
            Event::WarnCounted(warns),
        ).1 == (Action::Restrict {
            chat_id: case.chat_id,
            user_id: case.user_id,
            minutes: settings.mute_minutes,
        }),
{
}

/// An enforcement runs to its end. Once a violation was found and the store
/// does not fail, the steps follow in their order whatever comes of the
/// calls to the chat platform: after the deletion the warning is counted,
/// the offender is restricted or banned where the penalty says so, the audit
/// record is written, the chat is told the new warning count, and the
/// evaluation ends with the verdict. The flood tracker is not touched.
pub proof fn law_enforcement_runs_in_order(
    case: Case,
    penalty: Penalty,
    warns: i32,
    table: Table,
    now: u128,
)
    ensures
        run(
            enforcing(case, penalty, Step::Delete, 0).0,
            enforcement_answers(penalty.sanction, warns),
            table,
            now,
        ) == (Course {
            state: Evaluation::Finished,
            actions: enforcement_actions(case, penalty, warns),
            table,
        }),
{
    reveal_with_fuel(run, 6);
    let events = enforcement_answers(penalty.sanction, warns);
    let course = run(enforcing(case, penalty, Step::Delete, 0).0, events, table, now);
    let e1 = events.drop_first();
    let e2 = e1.drop_first();
    let e3 = e2.drop_first();
    let e4 = e3.drop_first();
    if penalty.sanction == Sanction::Warn {
        assert(events == seq![Event::Done, Event::WarnCounted(warns), Event::Done, Event::Done]);
        assert(e1 == seq![Event::WarnCounted(warns), Event::Done, Event::Done]);
        assert(e2 == seq![Event::Done, Event::Done]);
        assert(e3 == seq![Event::Done]);
        assert(e4 == Seq::<Event>::empty());
    } else {
        assert(events == seq![
            Event::Done,
            Event::WarnCounted(warns),
            Event::Done,
            Event::Done,
            Event::Done,
        ]);
        assert(e1 == seq![Event::WarnCounted(warns), Event::Done, Event::Done, Event::Done]);
        assert(e2 == seq![Event::Done, Event::Done, Event::Done]);
        assert(e3 == seq![Event::Done, Event::Done]);
        assert(e4 == seq![Event::Done]);
        assert(e4.drop_first() == Seq::<Event>::empty());
    }
    assert(course.actions == enforcement_actions(case, penalty, warns));
}

/// A failure of the store ends the evaluation: where the policy, the
/// sender, the filters, the domain rules, the warning count or the audit
/// record was asked for and the store failed, the evaluation is given up with that failure
/// and asks for nothing more.
pub proof fn law_store_failure_ends_the_evaluation(state: Evaluation, table: Table, now: u128)
    requires
        match state {
            Evaluation::Enforcing { step, .. } => asks_store(step),
            Evaluation::Finished => false,
            _ => true,
        },
    ensures
        next(state, Event::StoreFailed, table, now) == (
            Evaluation::Finished,
            Action::Fail(Failure::Store),
        ),
        next_table(state, Event::StoreFailed, table, now) == table,
{
}

/// The name under which a violation of `kind` is entered in the audit log.
pub open spec fn audit_action_text(kind: ViolationKind) -> Seq<char> {
    match kind {
        ViolationKind::Filtered => "filtered"@,
        ViolationKind::LinkDenied => "link"@,
        ViolationKind::Flood => "flood"@,
    }
}

/// The reason that is given for a violation of `kind`.
pub open spec fn reason_text(kind: ViolationKind) -> Seq<char> {
    match kind {
        ViolationKind::Filtered => "prohibited content"@,
        ViolationKind::LinkDenied => "link policy violation"@,
        ViolationKind::Flood => "flood control"@,
    }
}

/// The text that tells a chat of a warning: the offender's warning count in
/// decimal notation and the reason, in the chat's sentence.
pub open spec fn notice_text(warns: i32, reason: Seq<char>) -> Seq<char> {
    "⚠️ Пользователь получил предупреждение ("@ + decimal(warns as int) + ") — "@ + reason
}

/// The name under which a violation of `kind` is entered in the audit log.
pub fn audit_action(kind: ViolationKind) -> (name: &'static str)
    ensures
        name@ == audit_action_text(kind),
{
    match kind {
        ViolationKind::Filtered => "filtered",
        ViolationKind::LinkDenied => "link",
        ViolationKind::Flood => "flood",
    }
}

/// The reason that is given for a violation of `kind`, in the audit log and to the chat.
pub fn reason(kind: ViolationKind) -> (text: &'static str)
    ensures
        text@ == reason_text(kind),
{
    match kind {
        ViolationKind::Filtered => "prohibited content",
        ViolationKind::LinkDenied => "link policy violation",
        ViolationKind::Flood => "flood control",
    }
}

/// The text that tells a chat of a warning.
pub fn notice(warns: i32, reason: &str) -> (text: String)
    ensures
        text@ == notice_text(warns, reason@),
{
    let mut text = String::from_str("⚠️ Пользователь получил предупреждение (");
    push_decimal(&mut text, warns as i64);
    text.append(") — ");
    text.append(reason);
    text
}

impl Penalty {
    /// The penalty for a violation of `kind` in a chat with `settings`.
    pub fn due(kind: ViolationKind, settings: &ChatSettings) -> (penalty: Penalty)
        ensures
            penalty == due_penalty(kind, *settings),
    {
        let sanction = match kind {
            ViolationKind::Flood => Sanction::Mute,
            _ => {
                if str_eq(settings.default_sanction.as_str(), "mute") {
                    Sanction::Mute
                } else if str_eq(settings.default_sanction.as_str(), "ban") {
                    Sanction::Ban
                } else {
                    Sanction::Warn
                }
            },
        };
        Penalty { kind, sanction, mute_minutes: settings.mute_minutes }
    }
}

/// The engine: the flood tracker, which is all the state that outlives a message.
#[derive(Debug, Clone)]
pub struct ModerationEngine {
    flood: FloodTracker,
}

impl View for ModerationEngine {
    type V = Table;

    /// The windows of the engine's flood tracker.
    closed spec fn view(&self) -> Table {
        self.flood@
    }
}

impl ModerationEngine {
    /// An engine that has seen no message.
    pub fn new() -> (engine: Self)
        ensures
            engine@ == Map::<(i64, i64), Seq<u128>>::empty(),
    {
        ModerationEngine { flood: FloodTracker::new() }
    }

    /// How many recent messages of `(chat_id, user_id)` the flood tracker holds.
    pub fn retained(&self, chat_id: i64, user_id: i64) -> (n: usize)
        ensures
            n == window_of(self@, chat_id, user_id).len(),
    {
        self.flood.retained(chat_id, user_id)
    }

    /// Opens the evaluation of `msg`. The engine is not touched.
    pub fn begin(msg: Inbound) -> (out: (Evaluation, Action))
        ensures
            out == opening(msg),
    {
        match msg.sender {
            Some(user_id) => {
                if msg.text.as_str().is_empty() {
                    (Evaluation::Finished, Action::Finish(None))
                } else {
                    let chat_id = msg.chat_id;
                    let case = Case { chat_id, message_id: msg.message_id, user_id, text: msg.text };
                    (Evaluation::AwaitSettings { case }, Action::LoadSettings { chat_id })
                }
            },
            None => (Evaluation::Finished, Action::Finish(None)),
        }
    }

    fn enforce(case: Case, penalty: Penalty, step: Step, warns: i32) -> (out: (Evaluation, Action))
        ensures
            out == enforcing(case, penalty, step, warns),
    {
        let chat_id = case.chat_id;
        let user_id = case.user_id;
        let action = match step {
            Step::Delete => Action::DeleteMessage { chat_id, message_id: case.message_id },
            Step::Count => Action::IncrementWarn { chat_id, user_id },
            Step::Restrict => Action::Restrict { chat_id, user_id, minutes: penalty.mute_minutes },
            Step::Ban => Action::Ban { chat_id, user_id },
            Step::Audit => Action::WriteAudit { chat_id, user_id, kind: penalty.kind },
            Step::Notify => Action::Notify { chat_id, kind: penalty.kind, warns },
        };
        (Evaluation::Enforcing { case, penalty, step, warns }, action)
    }

    fn give_up(event: &Event) -> (out: (Evaluation, Action))
        ensures
            out == given_up(*event),
    {
        let failure = match event {
            Event::StoreFailed => Failure::Store,
            _ => Failure::Unexpected,
        };
        (Evaluation::Finished, Action::Fail(failure))
    }

    fn enforced(case: Case, penalty: Penalty, step: Step, warns: i32, event: &Event) -> (out: (
        Evaluation,
        Action,
    ))
        ensures
            out == on_enforced(case, penalty, step, warns, *event),
    {
        let counting = match step {
            Step::Count => true,
            _ => false,
        };
        let counted = match event {
            Event::WarnCounted(n) => if counting {
                Some(*n)
            } else {
                None
            },
            Event::Done => if counting {
                None
            } else {
                Some(warns)
            },
            _ => None,
        };
        match counted {
            Some(n) => {
                let following = match step {
                    Step::Delete => Some(Step::Count),
                    Step::Count => Some(
                        match penalty.sanction {
                            Sanction::Mute => Step::Restrict,
                            Sanction::Ban => Step::Ban,
                            Sanction::Warn => Step::Audit,
                        },
                    ),
                    Step::Restrict => Some(Step::Audit),
                    Step::Ban => Some(Step::Audit),
                    Step::Audit => Some(Step::Notify),
                    Step::Notify => None,
                };
                match following {
                    Some(next) => Self::enforce(case, penalty, next, n),
                    None => (Evaluation::Finished, Action::Finish(Some(penalty.kind))),
                }
            },
            None => {
                let store = match step {
                    Step::Count => true,
                    Step::Audit => true,
                    _ => false,
                };
                let failure = match event {
                    Event::StoreFailed => if store {
                        Failure::Store
                    } else {
                        Failure::Unexpected
                    },
                    _ => Failure::Unexpected,
                };
                (Evaluation::Finished, Action::Fail(failure))
            },
        }
    }

    /// One step of an evaluation, with the flood tracker's clock at `now`:
    /// the state and the action that follow `state` on `event`. The flood
    /// tracker records the message in the step that takes the domain rules,
    /// unless the message broke the link policy; no other step touches it.
    /// Where its windows held their times in order and `now` is no earlier
    /// than the sender's last message, they still do afterwards.
    pub fn advance_at(&mut self, state: Evaluation, event: Event, now: u128) -> (out: (
        Evaluation,
        Action,
    ))
        ensures
            out == next(state, event, old(self)@, now),
            final(self)@ == next_table(state, event, old(self)@, now),
            in_order(old(self)@) && (state matches Evaluation::AwaitDomains { case, .. } ==> follows(
                window_of(old(self)@, case.chat_id, case.user_id),
                now,
            )) ==> in_order(final(self)@),
    {
        match state {
            Evaluation::AwaitSettings { case } => match event {
                Event::SettingsLoaded(settings) => {
                    if settings.moderation_enabled {
                        let chat_id = case.chat_id;
                        let user_id = case.user_id;
                        (
                            Evaluation::AwaitSender { case, settings },
                            Action::LoadSender { chat_id, user_id },
                        )
                    } else {
                        (Evaluation::Finished, Action::Finish(None))
                    }
                },
                other => Self::give_up(&other),
            },
            Evaluation::AwaitSender { case, settings } => match event {
                Event::SenderLoaded { whitelisted } => {
                    if whitelisted {
                        (Evaluation::Finished, Action::Finish(None))
                    } else {
                        let chat_id = case.chat_id;
                        (Evaluation::AwaitFilters { case, settings }, Action::LoadFilters { chat_id })
                    }
                },
                other => Self::give_up(&other),
            },
            Evaluation::AwaitFilters { case, settings } => match event {
                Event::FiltersLoaded(filters) => {
                    if check_filters(case.text.as_str(), filters.as_slice()) {
                        let penalty = Penalty::due(ViolationKind::Filtered, &settings);
                        Self::enforce(case, penalty, Step::Delete, 0)
                    } else {
                        let chat_id = case.chat_id;
                        (Evaluation::AwaitDomains { case, settings }, Action::LoadDomains { chat_id })
                    }
                },
                other => Self::give_up(&other),
            },
            Evaluation::AwaitDomains { case, settings } => match event {
                Event::DomainsLoaded(rules) => {
                    if check_links(case.text.as_str(), &settings, rules.as_slice()) {
                        let penalty = Penalty::due(ViolationKind::LinkDenied, &settings);
                        Self::enforce(case, penalty, Step::Delete, 0)
                    } else if self.flood.hit_at(
                        case.chat_id,
                        case.user_id,
                        now,
                        settings.flood_window_sec,
                        settings.flood_max_msgs,
                    ) {
                        let penalty = Penalty::due(ViolationKind::Flood, &settings);
                        Self::enforce(case, penalty, Step::Delete, 0)
                    } else {
                        (Evaluation::Finished, Action::Finish(None))
                    }
                },
                other => Self::give_up(&other),
            },
            Evaluation::Enforcing { case, penalty, step, warns } => Self::enforced(
                case,
                penalty,
                step,
                warns,
                &event,
            ),
            Evaluation::Finished => (Evaluation::Finished, Action::Fail(Failure::Unexpected)),
        }
    }

    /// One step of an evaluation at the present time of the flood tracker's
    /// clock. Whatever the clock shows, the step is the one that `advance_at`
    /// takes for that time.
    pub fn advance(&mut self, state: Evaluation, event: Event) -> (out: (Evaluation, Action))
        ensures
            exists|now: u128|
                out == next(state, event, old(self)@, now) && final(self)@ == #[trigger] next_table(
                    state,
                    event,
                    old(self)@,
                    now,
                ),
    {
        let now = self.flood.now();
        self.advance_at(state, event, now)
    }
}

} // verus!
