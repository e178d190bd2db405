use woxel::db::models::{ChatSettings, DomainRule, Filter};
use woxel::moderation::rules::ViolationKind;
use woxel::moderation::{
    audit_action, notice, reason, Action, Case, Evaluation, Event, Failure, Inbound,
    ModerationEngine, Penalty, Sanction, Step,
};

const SECOND: u128 = 1_000_000_000;

fn chat_policy(enabled: bool, links_mode: &str, sanction: &str) -> ChatSettings {
    ChatSettings {
        tg_chat_id: -100,
        language: "ru".into(),
        moderation_enabled: enabled,
        links_mode: links_mode.into(),
        flood_window_sec: 5,
        flood_max_msgs: 3,
        warn_threshold: 3,
        default_sanction: sanction.into(),
        mute_minutes: 10,
        raid_window_sec: 60,
        raid_max_joins: 10,
        lockdown_minutes: 5,
        verification_enabled: false,
        verification_timeout_min: 10,
        log_chat_id: None,
        log_thread_id: None,
    }
}

fn message(text: &str) -> Inbound {
    Inbound {
        chat_id: -100,
        message_id: 42,
        sender: Some(7),
        text: text.into(),
    }
}

fn spam_filter() -> Vec<Filter> {
    vec![Filter {
        id: 1,
        tg_chat_id: -100,
        kind: "text".into(),
        pattern: "spam".into(),
        enabled: true,
    }]
}

fn deny_bad_com() -> Vec<DomainRule> {
    vec![DomainRule {
        id: 1,
        tg_chat_id: -100,
        list_type: "deny".into(),
        domain: "bad.com".into(),
        enabled: true,
    }]
}

/// What a store that never fails answers to `action`.
fn answer(
    action: Action,
    settings: &ChatSettings,
    filters: &[Filter],
    rules: &[DomainRule],
    warns: i32,
) -> Event {
    match action {
        Action::LoadSettings { .. } => Event::SettingsLoaded(settings.clone()),
        Action::LoadSender { .. } => Event::SenderLoaded { whitelisted: false },
        Action::LoadFilters { .. } => Event::FiltersLoaded(filters.to_vec()),
        Action::LoadDomains { .. } => Event::DomainsLoaded(rules.to_vec()),
        Action::IncrementWarn { .. } => Event::WarnCounted(warns),
        _ => Event::Done,
    }
}

/// Runs one evaluation to its end and returns every action it asked for.
fn evaluate(
    engine: &mut ModerationEngine,
    msg: Inbound,
    now: u128,
    settings: &ChatSettings,
    filters: &[Filter],
    rules: &[DomainRule],
    warns: i32,
) -> Vec<Action> {
    let (mut state, mut action) = ModerationEngine::begin(msg);
    let mut asked = vec![action];
    for _ in 0..20 {
        if matches!(action, Action::Finish(_) | Action::Fail(_)) {
            assert!(matches!(state, Evaluation::Finished));
            return asked;
        }
        let event = answer(action, settings, filters, rules, warns);
        let (next_state, next_action) = engine.advance_at(state, event, now);
        state = next_state;
        action = next_action;
        asked.push(action);
    }
    panic!("the evaluation did not end");
}

#[test]
fn message_without_sender_is_not_evaluated() {
    let mut msg = message("This is SPAM");
    msg.sender = None;
    let (state, action) = ModerationEngine::begin(msg);
    assert!(matches!(state, Evaluation::Finished));
    assert_eq!(action, Action::Finish(None));
}

#[test]
fn message_without_text_is_not_evaluated() {
    let (state, action) = ModerationEngine::begin(message(""));
    assert!(matches!(state, Evaluation::Finished));
    assert_eq!(action, Action::Finish(None));
}

#[test]
fn evaluation_starts_by_loading_the_policy() {
    let (state, action) = ModerationEngine::begin(message("hello"));
    assert_eq!(action, Action::LoadSettings { chat_id: -100 });
    match state {
        Evaluation::AwaitSettings { case } => {
            assert_eq!(case.chat_id, -100);
            assert_eq!(case.message_id, 42);
            assert_eq!(case.user_id, 7);
            assert_eq!(case.text, "hello");
        }
        other => panic!("unexpected state {other:?}"),
    }
}

#[test]
fn disabled_moderation_has_no_effect() {
    let mut engine = ModerationEngine::new();
    let settings = chat_policy(false, "deny_all", "ban");
    for k in 0..10u128 {
        let asked = evaluate(
            &mut engine,
            message("This is SPAM https://a.bad.com"),
            k,
            &settings,
            &spam_filter(),
            &deny_bad_com(),
            1,
        );
        assert_eq!(
            asked,
            vec![Action::LoadSettings { chat_id: -100 }, Action::Finish(None)]
        );
    }
    assert_eq!(engine.retained(-100, 7), 0);
}

#[test]
fn whitelisted_sender_is_exempt_from_every_check() {
    let mut engine = ModerationEngine::new();
    let settings = chat_policy(true, "deny_all", "ban");
    for k in 0..10u128 {
        let (state, action) = ModerationEngine::begin(message("This is SPAM https://a.bad.com"));
        assert_eq!(action, Action::LoadSettings { chat_id: -100 });
        let (state, action) = engine.advance_at(state, Event::SettingsLoaded(settings.clone()), k);
        assert_eq!(action, Action::LoadSender { chat_id: -100, user_id: 7 });
        let (state, action) =
            engine.advance_at(state, Event::SenderLoaded { whitelisted: true }, k);
        assert!(matches!(state, Evaluation::Finished));
        assert_eq!(action, Action::Finish(None));
    }
    assert_eq!(engine.retained(-100, 7), 0);
}

#[test]
fn clean_message_loads_everything_and_ends_without_verdict() {
    let mut engine = ModerationEngine::new();
    let settings = chat_policy(true, "deny_list", "ban");
    let asked = evaluate(
        &mut engine,
        message("a normal message https://good.com"),
        0,
        &settings,
        &spam_filter(),
        &deny_bad_com(),
        1,
    );
    assert_eq!(
        asked,
        vec![
            Action::LoadSettings { chat_id: -100 },
            Action::LoadSender { chat_id: -100, user_id: 7 },
            Action::LoadFilters { chat_id: -100 },
            Action::LoadDomains { chat_id: -100 },
            Action::Finish(None),
        ]
    );
    assert_eq!(engine.retained(-100, 7), 1);
}

#[test]
fn filtered_message_is_enforced_with_a_warning() {
    let mut engine = ModerationEngine::new();
    let settings = chat_policy(true, "off", "warn");
    let asked = evaluate(
        &mut engine,
        message("This is SPAM"),
        0,
        &settings,
        &spam_filter(),
        &[],
        4,
    );
    assert_eq!(
        asked,
        vec![
            Action::LoadSettings { chat_id: -100 },
            Action::LoadSender { chat_id: -100, user_id: 7 },
            Action::LoadFilters { chat_id: -100 },
            Action::DeleteMessage { chat_id: -100, message_id: 42 },
            Action::IncrementWarn { chat_id: -100, user_id: 7 },
            Action::WriteAudit { chat_id: -100, user_id: 7, kind: ViolationKind::Filtered },
            Action::Notify { chat_id: -100, kind: ViolationKind::Filtered, warns: 4 },
            Action::Finish(Some(ViolationKind::Filtered)),
        ]
    );
    assert_eq!(audit_action(ViolationKind::Filtered), "filtered");
    assert_eq!(reason(ViolationKind::Filtered), "prohibited content");
    // The content filter decided before the flood tracker was asked.
    assert_eq!(engine.retained(-100, 7), 0);
}

#[test]
fn denied_link_is_enforced_with_the_default_sanction() {
    let mut engine = ModerationEngine::new();
    let settings = chat_policy(true, "deny_list", "ban");
    let asked = evaluate(
        &mut engine,
        message("https://a.bad.com"),
        0,
        &settings,
        &spam_filter(),
        &deny_bad_com(),
        2,
    );
    assert_eq!(
        asked,
        vec![
            Action::LoadSettings { chat_id: -100 },
            Action::LoadSender { chat_id: -100, user_id: 7 },
            Action::LoadFilters { chat_id: -100 },
            Action::LoadDomains { chat_id: -100 },
            Action::DeleteMessage { chat_id: -100, message_id: 42 },
            Action::IncrementWarn { chat_id: -100, user_id: 7 },
            Action::Ban { chat_id: -100, user_id: 7 },
            Action::WriteAudit { chat_id: -100, user_id: 7, kind: ViolationKind::LinkDenied },
            Action::Notify { chat_id: -100, kind: ViolationKind::LinkDenied, warns: 2 },
            Action::Finish(Some(ViolationKind::LinkDenied)),
        ]
    );
    assert_eq!(audit_action(ViolationKind::LinkDenied), "link");
    assert_eq!(reason(ViolationKind::LinkDenied), "link policy violation");
    assert_eq!(engine.retained(-100, 7), 0);
}

#[test]
fn muting_chat_restricts_for_the_mute_duration() {
    let mut engine = ModerationEngine::new();
    let mut settings = chat_policy(true, "off", "mute");
    settings.mute_minutes = 45;
    let asked = evaluate(
        &mut engine,
        message("spam"),
        0,
        &settings,
        &spam_filter(),
        &[],
        1,
    );
    assert_eq!(
        asked[4..],
        [
            Action::IncrementWarn { chat_id: -100, user_id: 7 },
            Action::Restrict { chat_id: -100, user_id: 7, minutes: 45 },
            Action::WriteAudit { chat_id: -100, user_id: 7, kind: ViolationKind::Filtered },
            Action::Notify { chat_id: -100, kind: ViolationKind::Filtered, warns: 1 },
            Action::Finish(Some(ViolationKind::Filtered)),
        ]
    );
}

#[test]
fn fourth_message_in_five_seconds_is_a_flood_and_mutes() {
    let mut engine = ModerationEngine::new();
    // The chat's own sanction is a ban: flooding mutes all the same.
    let settings = chat_policy(true, "deny_list", "ban");
    for k in 0..3u128 {
        let asked = evaluate(
            &mut engine,
            message("hello"),
            k * SECOND,
            &settings,
            &spam_filter(),
            &deny_bad_com(),
            1,
        );
        assert_eq!(asked.last(), Some(&Action::Finish(None)));
    }
    let asked = evaluate(
        &mut engine,
        message("hello"),
        3 * SECOND,
        &settings,
        &spam_filter(),
        &deny_bad_com(),
        1,
    );
    assert_eq!(
        asked,
        vec![
            Action::LoadSettings { chat_id: -100 },
            Action::LoadSender { chat_id: -100, user_id: 7 },
            Action::LoadFilters { chat_id: -100 },
            Action::LoadDomains { chat_id: -100 },
            Action::DeleteMessage { chat_id: -100, message_id: 42 },
            Action::IncrementWarn { chat_id: -100, user_id: 7 },
            Action::Restrict { chat_id: -100, user_id: 7, minutes: 10 },
            Action::WriteAudit { chat_id: -100, user_id: 7, kind: ViolationKind::Flood },
            Action::Notify { chat_id: -100, kind: ViolationKind::Flood, warns: 1 },
            Action::Finish(Some(ViolationKind::Flood)),
        ]
    );
    assert_eq!(audit_action(ViolationKind::Flood), "flood");
    assert_eq!(reason(ViolationKind::Flood), "flood control");
    assert_eq!(engine.retained(-100, 7), 4);
}

#[test]
fn flood_is_counted_after_a_pause_from_one() {
    let mut engine = ModerationEngine::new();
    let settings = chat_policy(true, "off", "warn");
    for k in 0..4u128 {
        evaluate(&mut engine, message("hi"), k * SECOND, &settings, &[], &[], 1);
    }
    let asked = evaluate(&mut engine, message("hi"), 60 * SECOND, &settings, &[], &[], 1);
    assert_eq!(asked.last(), Some(&Action::Finish(None)));
    assert_eq!(engine.retained(-100, 7), 1);
}

#[test]
fn content_filter_comes_before_link_policy_and_flood() {
    let mut engine = ModerationEngine::new();
    let settings = chat_policy(true, "deny_all", "warn");
    for k in 0..5u128 {
        let asked = evaluate(
            &mut engine,
            message("SPAM at https://a.bad.com"),
            k,
            &settings,
            &spam_filter(),
            &deny_bad_com(),
            1,
        );
        assert_eq!(asked.last(), Some(&Action::Finish(Some(ViolationKind::Filtered))));
        assert!(!asked.contains(&Action::LoadDomains { chat_id: -100 }));
    }
    for k in 0..5u128 {
        let asked = evaluate(
            &mut engine,
            message("look at https://a.bad.com"),
            k,
            &settings,
            &spam_filter(),
            &deny_bad_com(),
            1,
        );
        assert_eq!(asked.last(), Some(&Action::Finish(Some(ViolationKind::LinkDenied))));
    }
    // Messages that were caught earlier never reached the flood tracker.
    assert_eq!(engine.retained(-100, 7), 0);
}

#[test]
fn store_failure_ends_the_evaluation_at_every_store_call() {
    let mut engine = ModerationEngine::new();
    let settings = chat_policy(true, "deny_list", "warn");

    let (state, _) = ModerationEngine::begin(message("spam"));
    let (state, action) = engine.advance_at(state, Event::StoreFailed, 0);
    assert!(matches!(state, Evaluation::Finished));
    assert_eq!(action, Action::Fail(Failure::Store));

    let (state, _) = ModerationEngine::begin(message("spam"));
    let (state, action) = engine.advance_at(state, Event::SettingsLoaded(settings.clone()), 0);
    assert_eq!(action, Action::LoadSender { chat_id: -100, user_id: 7 });
    let (_, action) = engine.advance_at(state, Event::StoreFailed, 0);
    assert_eq!(action, Action::Fail(Failure::Store));

    let (state, _) = ModerationEngine::begin(message("spam"));
    let (state, _) = engine.advance_at(state, Event::SettingsLoaded(settings.clone()), 0);
    let (state, action) =
        engine.advance_at(state, Event::SenderLoaded { whitelisted: false }, 0);
    assert_eq!(action, Action::LoadFilters { chat_id: -100 });
    let (_, action) = engine.advance_at(state, Event::StoreFailed, 0);
    assert_eq!(action, Action::Fail(Failure::Store));

    let (state, _) = ModerationEngine::begin(message("ham"));
    let (state, _) = engine.advance_at(state, Event::SettingsLoaded(settings.clone()), 0);
    let (state, _) = engine.advance_at(state, Event::SenderLoaded { whitelisted: false }, 0);
    let (state, action) = engine.advance_at(state, Event::FiltersLoaded(spam_filter()), 0);
    assert_eq!(action, Action::LoadDomains { chat_id: -100 });
    let (_, action) = engine.advance_at(state, Event::StoreFailed, 0);
    assert_eq!(action, Action::Fail(Failure::Store));
    assert_eq!(engine.retained(-100, 7), 0);
}

#[test]
fn failure_to_count_or_to_log_ends_the_enforcement() {
    let mut engine = ModerationEngine::new();
    let case = Case { chat_id: 1, message_id: 2, user_id: 3, text: "x".into() };
    let penalty = Penalty { kind: ViolationKind::Filtered, sanction: Sanction::Mute, mute_minutes: 5 };
    for step in [Step::Count, Step::Audit] {
        let state = Evaluation::Enforcing { case: case.clone(), penalty, step, warns: 0 };
        let (state, action) = engine.advance_at(state, Event::StoreFailed, 0);
        assert!(matches!(state, Evaluation::Finished));
        assert_eq!(action, Action::Fail(Failure::Store));
    }
}

#[test]
fn enforcement_steps_follow_in_order() {
    let mut engine = ModerationEngine::new();
    let case = Case { chat_id: 1, message_id: 2, user_id: 3, text: "x".into() };
    let penalty = Penalty { kind: ViolationKind::LinkDenied, sanction: Sanction::Warn, mute_minutes: 5 };
    let state = Evaluation::Enforcing { case, penalty, step: Step::Delete, warns: 0 };
    let (state, action) = engine.advance_at(state, Event::Done, 0);
    assert_eq!(action, Action::IncrementWarn { chat_id: 1, user_id: 3 });
    let (state, action) = engine.advance_at(state, Event::WarnCounted(9), 0);
    assert_eq!(action, Action::WriteAudit { chat_id: 1, user_id: 3, kind: ViolationKind::LinkDenied });
    let (state, action) = engine.advance_at(state, Event::Done, 0);
    assert_eq!(action, Action::Notify { chat_id: 1, kind: ViolationKind::LinkDenied, warns: 9 });
    let (state, action) = engine.advance_at(state, Event::Done, 0);
    assert_eq!(action, Action::Finish(Some(ViolationKind::LinkDenied)));
    let (state, action) = engine.advance_at(state, Event::Done, 0);
    assert!(matches!(state, Evaluation::Finished));
    assert_eq!(action, Action::Fail(Failure::Unexpected));
}

#[test]
fn event_that_answers_nothing_is_unexpected() {
    let mut engine = ModerationEngine::new();
    let settings = chat_policy(true, "off", "warn");

    let (state, _) = ModerationEngine::begin(message("spam"));
    let (_, action) = engine.advance_at(state, Event::FiltersLoaded(vec![]), 0);
    assert_eq!(action, Action::Fail(Failure::Unexpected));

    let (state, _) = ModerationEngine::begin(message("spam"));
    let (state, _) = engine.advance_at(state, Event::SettingsLoaded(settings.clone()), 0);
    let (_, action) = engine.advance_at(state, Event::Done, 0);
    assert_eq!(action, Action::Fail(Failure::Unexpected));

    let case = Case { chat_id: 1, message_id: 2, user_id: 3, text: "x".into() };
    let penalty = Penalty { kind: ViolationKind::Flood, sanction: Sanction::Mute, mute_minutes: 5 };
    // The store cannot fail where the chat platform was called.
    for step in [Step::Delete, Step::Restrict, Step::Ban, Step::Notify] {
        let state = Evaluation::Enforcing { case: case.clone(), penalty, step, warns: 0 };
        let (_, action) = engine.advance_at(state, Event::StoreFailed, 0);
        assert_eq!(action, Action::Fail(Failure::Unexpected));
    }
    // Counting is answered by a count, nothing else by one.
    let state = Evaluation::Enforcing { case: case.clone(), penalty, step: Step::Count, warns: 0 };
    let (_, action) = engine.advance_at(state, Event::Done, 0);
    assert_eq!(action, Action::Fail(Failure::Unexpected));
    let state = Evaluation::Enforcing { case, penalty, step: Step::Delete, warns: 0 };
    let (_, action) = engine.advance_at(state, Event::WarnCounted(1), 0);
    assert_eq!(action, Action::Fail(Failure::Unexpected));
}

#[test]
fn penalty_follows_the_default_sanction_except_for_flood() {
    for (name, sanction) in [
        ("warn", Sanction::Warn),
        ("mute", Sanction::Mute),
        ("ban", Sanction::Ban),
        ("", Sanction::Warn),
        ("MUTE", Sanction::Warn),
        ("kick", Sanction::Warn),
    ] {
        let settings = chat_policy(true, "off", name);
        for kind in [ViolationKind::Filtered, ViolationKind::LinkDenied] {
            assert_eq!(
                Penalty::due(kind, &settings),
                Penalty { kind, sanction, mute_minutes: 10 }
            );
        }
        assert_eq!(
            Penalty::due(ViolationKind::Flood, &settings),
            Penalty { kind: ViolationKind::Flood, sanction: Sanction::Mute, mute_minutes: 10 }
        );
    }
}

#[test]
fn notice_holds_count_and_reason() {
    assert_eq!(
        notice(3, "flood control"),
        "⚠️ Пользователь получил предупреждение (3) — flood control"
    );
    assert_eq!(
        notice(0, reason(ViolationKind::Filtered)),
        "⚠️ Пользователь получил предупреждение (0) — prohibited content"
    );
    assert_eq!(
        notice(120, ""),
        "⚠️ Пользователь получил предупреждение (120) — "
    );
    assert_eq!(
        notice(i32::MAX, "r"),
        "⚠️ Пользователь получил предупреждение (2147483647) — r"
    );
    assert_eq!(
        notice(i32::MIN, "r"),
        "⚠️ Пользователь получил предупреждение (-2147483648) — r"
    );
    assert_eq!(
        notice(-7, "r"),
        "⚠️ Пользователь получил предупреждение (-7) — r"
    );
}

#[test]
fn advance_reads_the_clock_of_the_engine() {
    let mut engine = ModerationEngine::new();
    let mut settings = chat_policy(true, "off", "warn");
    settings.flood_window_sec = 3600;
    settings.flood_max_msgs = 1;
    let mut verdicts = vec![];
    for _ in 0..2 {
        let (mut state, mut action) = ModerationEngine::begin(message("hi"));
        while !matches!(action, Action::Finish(_) | Action::Fail(_)) {
            let event = answer(action, &settings, &[], &[], 1);
            let (s, a) = engine.advance(state, event);
            state = s;
            action = a;
        }
        verdicts.push(action);
    }
    assert_eq!(
        verdicts,
        vec![Action::Finish(None), Action::Finish(Some(ViolationKind::Flood))]
    );
    assert_eq!(engine.retained(-100, 7), 2);
}
