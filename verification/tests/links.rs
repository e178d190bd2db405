use woxel::db::models::{ChatSettings, DomainRule};
use woxel::moderation::rules::{check_links, links_violate};
use woxel::utils::{domain_of, extract_domains};

fn policy(mode: &str) -> ChatSettings {
    ChatSettings {
        tg_chat_id: 1,
        language: "ru".into(),
        moderation_enabled: true,
        links_mode: mode.into(),
        flood_window_sec: 5,
        flood_max_msgs: 3,
        warn_threshold: 3,
        default_sanction: "warn".into(),
        mute_minutes: 10,
        raid_window_sec: 60,
        raid_max_joins: 10,
        lockdown_minutes: 5,
        verification_enabled: false,
        verification_timeout_min: 10,
        log_chat_id: None,
        log_thread_id: None,
    }
}

fn entry(list: &str, domain: &str, enabled: bool) -> DomainRule {
    DomainRule {
        id: 1,
        tg_chat_id: 1,
        list_type: list.into(),
        domain: domain.into(),
        enabled,
    }
}

fn names(list: &[&str]) -> Vec<String> {
    list.iter().map(|s| s.to_string()).collect()
}

#[test]
fn extract_skips_what_is_no_url() {
    assert_eq!(extract_domains(""), Vec::<String>::new());
    assert_eq!(extract_domains("   \t\n "), Vec::<String>::new());
    assert_eq!(extract_domains("just some words"), Vec::<String>::new());
    assert_eq!(extract_domains("example.com www.example.com"), Vec::<String>::new());
    assert_eq!(extract_domains("http:// https://"), Vec::<String>::new());
}

#[test]
fn extract_skips_urls_without_host() {
    assert_eq!(extract_domains("mailto:someone@example.com"), Vec::<String>::new());
    assert_eq!(extract_domains("data:text/plain,Stuff"), Vec::<String>::new());
}

#[test]
fn extract_lowers_the_host() {
    assert_eq!(extract_domains("HTTPS://EXAMPLE.COM/Path"), vec!["example.com"]);
    // The host of a URL with a scheme of its own is kept as written by the
    // parser; it is lowered all the same.
    assert_eq!(extract_domains("custom://Example.COM/x"), vec!["example.com"]);
}

#[test]
fn extract_cuts_at_any_white_space() {
    let found = extract_domains("a\thttps://one.example\nb\u{00a0}ftp://two.example/x\u{3000}c");
    assert_eq!(found, vec!["one.example", "two.example"]);
}

#[test]
fn extract_keeps_order_and_repeats() {
    let found = extract_domains("https://b.com https://a.com https://b.com");
    assert_eq!(found, vec!["b.com", "a.com", "b.com"]);
}

#[test]
fn extract_takes_the_host_without_user_port_or_path() {
    let found = extract_domains("ftp://rms@example.com:2121/pub https://127.0.0.1/index.html");
    assert_eq!(found, vec!["example.com", "127.0.0.1"]);
}

#[test]
fn domain_of_each_outcome() {
    assert_eq!(domain_of(Ok(Some("Example.COM".to_string()))), Some("example.com".to_string()));
    assert_eq!(domain_of(Ok(None)), None);
    let failed = url::Url::parse("no url").map(|_| Some("Example.COM".to_string()));
    assert!(failed.is_err());
    assert_eq!(domain_of(failed), None);
}

#[test]
fn message_without_domain_never_violates() {
    let rules = vec![entry("deny", "bad.com", true)];
    for mode in ["off", "deny_all", "deny_list", "allow_list", "other"] {
        assert!(!check_links("no links in here", &policy(mode), &rules));
        assert!(!check_links("", &policy(mode), &rules));
        assert!(!links_violate(&names(&[]), &policy(mode), &rules));
    }
}

#[test]
fn deny_all_denies_any_domain() {
    assert!(check_links("see https://good.com", &policy("deny_all"), &[]));
    assert!(check_links(
        "see https://good.com",
        &policy("deny_all"),
        &[entry("allow", "good.com", true)]
    ));
}

#[test]
fn off_and_unknown_modes_deny_nothing() {
    let rules = vec![entry("deny", "bad.com", true)];
    assert!(!check_links("https://bad.com", &policy("off"), &rules));
    assert!(!check_links("https://bad.com", &policy(""), &rules));
    assert!(!check_links("https://bad.com", &policy("DENY_ALL"), &rules));
    assert!(!check_links("https://bad.com", &policy("deny"), &rules));
}

#[test]
fn deny_list_covers_the_domain_and_its_subdomains() {
    let rules = vec![entry("deny", "bad.com", true)];
    let p = policy("deny_list");
    assert!(check_links("https://bad.com", &p, &rules));
    assert!(check_links("https://a.bad.com", &p, &rules));
    assert!(check_links("https://x.y.bad.com/path", &p, &rules));
    assert!(!check_links("https://good.com", &p, &rules));
    assert!(!check_links("https://bad.com.example.org", &p, &rules));
    assert!(!check_links("https://com", &p, &rules));
}

#[test]
fn deny_list_does_not_cover_a_longer_name_without_a_dot() {
    let rules = vec![entry("deny", "bad.com", true)];
    assert!(!check_links("https://notbad.com", &policy("deny_list"), &rules));
    assert!(!links_violate(&names(&["notbad.com"]), &policy("deny_list"), &rules));
    assert!(links_violate(&names(&["not.bad.com"]), &policy("deny_list"), &rules));
}

#[test]
fn deny_list_ignores_disabled_and_allow_entries() {
    let p = policy("deny_list");
    assert!(!check_links("https://bad.com", &p, &[entry("deny", "bad.com", false)]));
    assert!(!check_links("https://bad.com", &p, &[entry("allow", "bad.com", true)]));
    assert!(!check_links("https://bad.com", &p, &[]));
}

#[test]
fn deny_list_finds_one_bad_domain_among_good_ones() {
    let rules = vec![entry("deny", "other.org", true), entry("deny", "bad.com", true)];
    assert!(check_links(
        "https://good.com and https://a.bad.com",
        &policy("deny_list"),
        &rules
    ));
}

#[test]
fn rule_domain_is_taken_in_lower_case() {
    let rules = vec![entry("deny", "BAD.Com", true)];
    assert!(check_links("https://a.bad.com", &policy("deny_list"), &rules));
    assert!(check_links("https://bad.com", &policy("deny_list"), &rules));
    let allow = vec![entry("allow", "GOOD.com", true)];
    assert!(!check_links("https://good.com", &policy("allow_list"), &allow));
}

#[test]
fn allow_list_passes_only_listed_domains() {
    let rules = vec![entry("allow", "good.com", true)];
    let p = policy("allow_list");
    assert!(!check_links("https://good.com", &p, &rules));
    assert!(!check_links("https://good.com https://a.good.com", &p, &rules));
    assert!(check_links("https://evil.com", &p, &rules));
    assert!(check_links("https://notgood.com", &p, &rules));
}

#[test]
fn allow_list_denies_a_mixed_message() {
    let rules = vec![entry("allow", "good.com", true)];
    let p = policy("allow_list");
    assert!(check_links("https://good.com https://evil.com", &p, &rules));
    assert!(check_links("https://evil.com https://good.com", &p, &rules));
}

#[test]
fn allow_list_without_rules_denies_every_domain() {
    let p = policy("allow_list");
    assert!(check_links("https://evil.com", &p, &[]));
    assert!(check_links("https://good.com", &p, &[entry("allow", "good.com", false)]));
    assert!(check_links("https://good.com", &p, &[entry("deny", "good.com", true)]));
}

#[test]
fn links_violate_agrees_with_check_links() {
    let rules = vec![entry("deny", "bad.com", true), entry("allow", "good.com", true)];
    for mode in ["off", "deny_all", "deny_list", "allow_list"] {
        for text in ["https://a.bad.com", "https://good.com", "https://evil.com x", "none"] {
            let p = policy(mode);
            assert_eq!(
                check_links(text, &p, &rules),
                links_violate(&extract_domains(text), &p, &rules)
            );
        }
    }
}
