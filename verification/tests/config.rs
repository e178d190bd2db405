use std::str::FromStr;
use woxel::config::{Config, ConfigError, RunMode, Variable, Vars, WebhookConfig};

fn polling(token: &str, db: &str, rate: u32) -> Config {
    Config {
        bot_token: token.into(),
        mode: RunMode::Polling,
        database_url: db.into(),
        admin_ids: vec![],
        rust_log: "info".into(),
        rate_limit_per_sec: rate,
        webhook: None,
    }
}

fn webhook(url: &str, path: &str) -> Config {
    Config {
        bot_token: "x".into(),
        mode: RunMode::Webhook,
        database_url: "postgres://db".into(),
        admin_ids: vec![1, 2],
        rust_log: "info".into(),
        rate_limit_per_sec: 1,
        webhook: Some(WebhookConfig {
            url: url.into(),
            bind: "0.0.0.0:8080".into(),
            path: path.into(),
        }),
    }
}

#[test]
fn validate_rejects_bad_db() {
    let cfg = Config {
        bot_token: "x".into(),
        mode: RunMode::Polling,
        database_url: "mysql://bad".into(),
        admin_ids: vec![],
        rust_log: "info".into(),
        rate_limit_per_sec: 1,
        webhook: None,
    };
    assert!(cfg.validate().is_err());
}

#[test]
fn validate_webhook_requires_https() {
    let cfg = Config {
        bot_token: "x".into(),
        mode: RunMode::Webhook,
        database_url: "sqlite://woxel.db".into(),
        admin_ids: vec![],
        rust_log: "info".into(),
        rate_limit_per_sec: 1,
        webhook: Some(WebhookConfig {
            url: "http://example.com".into(),
            bind: "0.0.0.0:8080".parse().unwrap(),
            path: "/x".into(),
        }),
    };
    assert!(cfg.validate().is_err());
}

#[test]
fn validate_accepts_a_sound_configuration() {
    assert_eq!(polling("123:abc", "sqlite://woxel.db", 2).validate(), Ok(()));
    assert_eq!(polling(" t ", "postgres://u@h/db", u32::MAX).validate(), Ok(()));
    assert_eq!(webhook("https://example.com", "/tg/webhook").validate(), Ok(()));
    assert_eq!(webhook("https://", "/").validate(), Ok(()));
}

#[test]
fn validate_names_each_fault() {
    assert_eq!(polling("", "sqlite://a", 1).validate(), Err(ConfigError::EmptyToken));
    assert_eq!(polling(" \t\n\u{00a0}", "sqlite://a", 1).validate(), Err(ConfigError::EmptyToken));
    assert_eq!(polling("x", "mysql://bad", 1).validate(), Err(ConfigError::UnsupportedDatabase));
    assert_eq!(polling("x", "SQLITE://a", 1).validate(), Err(ConfigError::UnsupportedDatabase));
    assert_eq!(polling("x", " sqlite://a", 1).validate(), Err(ConfigError::UnsupportedDatabase));
    assert_eq!(polling("x", "", 1).validate(), Err(ConfigError::UnsupportedDatabase));
    assert_eq!(polling("x", "sqlite://a", 0).validate(), Err(ConfigError::ZeroRateLimit));
    let mut cfg = webhook("https://example.com", "/x");
    cfg.webhook = None;
    assert_eq!(cfg.validate(), Err(ConfigError::MissingWebhook));
    assert_eq!(webhook("http://example.com", "/x").validate(), Err(ConfigError::InsecureWebhook));
    assert_eq!(webhook("HTTPS://example.com", "/x").validate(), Err(ConfigError::InsecureWebhook));
    assert_eq!(webhook("https://example.com", "x").validate(), Err(ConfigError::RelativeWebhookPath));
    assert_eq!(webhook("https://example.com", "").validate(), Err(ConfigError::RelativeWebhookPath));
}

#[test]
fn validate_reports_the_first_fault() {
    assert_eq!(polling("", "mysql://bad", 0).validate(), Err(ConfigError::EmptyToken));
    assert_eq!(polling("x", "mysql://bad", 0).validate(), Err(ConfigError::UnsupportedDatabase));
    let mut cfg = webhook("http://example.com", "x");
    cfg.rate_limit_per_sec = 0;
    assert_eq!(cfg.validate(), Err(ConfigError::ZeroRateLimit));
    assert_eq!(webhook("http://example.com", "x").validate(), Err(ConfigError::InsecureWebhook));
}

#[test]
fn validate_ignores_the_webhook_when_polling() {
    let mut cfg = webhook("http://example.com", "x");
    cfg.mode = RunMode::Polling;
    assert_eq!(cfg.validate(), Ok(()));
}

#[test]
fn run_mode_is_parsed_in_any_case() {
    assert_eq!(RunMode::parse("polling"), Ok(RunMode::Polling));
    assert_eq!(RunMode::parse("Polling"), Ok(RunMode::Polling));
    assert_eq!(RunMode::parse("WEBHOOK"), Ok(RunMode::Webhook));
    assert_eq!(RunMode::parse("webHook"), Ok(RunMode::Webhook));
    assert_eq!(RunMode::parse(""), Err(ConfigError::UnknownMode));
    assert_eq!(RunMode::parse(" polling"), Err(ConfigError::UnknownMode));
    assert_eq!(RunMode::parse("poll"), Err(ConfigError::UnknownMode));
    assert_eq!(RunMode::from_str("webhook"), Ok(RunMode::Webhook));
    assert_eq!("Polling".parse::<RunMode>(), Ok(RunMode::Polling));
    assert_eq!("both".parse::<RunMode>(), Err(ConfigError::UnknownMode));
}

#[test]
fn config_errors_have_their_messages() {
    assert_eq!(
        ConfigError::Missing(Variable::BotToken).message(),
        "missing required env var: BOT_TOKEN"
    );
    assert_eq!(ConfigError::Missing(Variable::Mode).message(), "missing required env var: MODE");
    assert_eq!(
        ConfigError::Missing(Variable::DatabaseUrl).message(),
        "missing required env var: DATABASE_URL"
    );
    assert_eq!(
        ConfigError::Missing(Variable::WebhookUrl).message(),
        "missing required env var: WEBHOOK_URL"
    );
    assert_eq!(
        ConfigError::Missing(Variable::WebhookBind).message(),
        "missing required env var: WEBHOOK_BIND"
    );
    assert_eq!(ConfigError::InvalidAdminId.message(), "invalid ADMIN_IDS entry");
    assert_eq!(ConfigError::InvalidRateLimit.message(), "RATE_LIMIT_PER_SEC must be integer");
    assert_eq!(ConfigError::UnknownMode.message(), "MODE must be 'polling' or 'webhook'");
    assert_eq!(ConfigError::EmptyToken.message(), "BOT_TOKEN cannot be empty");
    assert_eq!(
        ConfigError::UnsupportedDatabase.message(),
        "DATABASE_URL must start with sqlite:// or postgres://"
    );
    assert_eq!(ConfigError::ZeroRateLimit.message(), "RATE_LIMIT_PER_SEC must be > 0");
    assert_eq!(ConfigError::MissingWebhook.message(), "webhook config required");
    assert_eq!(ConfigError::InsecureWebhook.message(), "WEBHOOK_URL must be https");
    assert_eq!(ConfigError::RelativeWebhookPath.message(), "WEBHOOK_PATH must start with '/'");
}

fn vars(mode: &str) -> Vars {
    Vars {
        bot_token: Some("123:abc".into()),
        mode: Some(mode.into()),
        database_url: Some("sqlite://woxel.db".into()),
        admin_ids: None,
        rust_log: None,
        rate_limit_per_sec: None,
        webhook_url: Some("https://example.com".into()),
        webhook_bind: Some("0.0.0.0:8080".into()),
        webhook_path: None,
    }
}

#[test]
fn configuration_from_variables_with_defaults() {
    let cfg = Config::from_vars(vars("polling")).unwrap();
    assert_eq!(cfg.bot_token, "123:abc");
    assert_eq!(cfg.mode, RunMode::Polling);
    assert_eq!(cfg.database_url, "sqlite://woxel.db");
    assert_eq!(cfg.admin_ids, Vec::<i64>::new());
    assert_eq!(cfg.rust_log, "info");
    assert_eq!(cfg.rate_limit_per_sec, 2);
    assert!(cfg.webhook.is_none());
    assert_eq!(cfg.validate(), Ok(()));
}

#[test]
fn configuration_from_variables_in_webhook_mode() {
    let mut v = vars("WebHook");
    v.rust_log = Some("debug".into());
    v.rate_limit_per_sec = Some("15".into());
    v.admin_ids = Some("1, -2 ,,3, ,".into());
    let cfg = Config::from_vars(v.clone()).unwrap();
    assert_eq!(cfg.mode, RunMode::Webhook);
    assert_eq!(cfg.admin_ids, vec![1, -2, 3]);
    assert_eq!(cfg.rust_log, "debug");
    assert_eq!(cfg.rate_limit_per_sec, 15);
    let wh = cfg.webhook.clone().unwrap();
    assert_eq!(wh.url, "https://example.com");
    assert_eq!(wh.bind, "0.0.0.0:8080");
    assert_eq!(wh.path, "/tg/webhook");
    assert_eq!(cfg.validate(), Ok(()));
    v.webhook_path = Some("hook".into());
    let cfg = Config::from_vars(v).unwrap();
    assert_eq!(cfg.webhook.clone().unwrap().path, "hook");
    assert_eq!(cfg.validate(), Err(ConfigError::RelativeWebhookPath));
}

#[test]
fn configuration_names_the_missing_variable() {
    let mut v = vars("webhook");
    v.webhook_bind = None;
    assert_eq!(Config::from_vars(v.clone()).err(), Some(ConfigError::Missing(Variable::WebhookBind)));
    v.webhook_url = None;
    assert_eq!(Config::from_vars(v.clone()).err(), Some(ConfigError::Missing(Variable::WebhookUrl)));
    v.mode = Some("polling".into());
    assert!(Config::from_vars(v.clone()).is_ok());
    v.database_url = None;
    assert_eq!(Config::from_vars(v.clone()).err(), Some(ConfigError::Missing(Variable::DatabaseUrl)));
    v.mode = None;
    assert_eq!(Config::from_vars(v.clone()).err(), Some(ConfigError::Missing(Variable::Mode)));
    v.bot_token = None;
    assert_eq!(Config::from_vars(v).err(), Some(ConfigError::Missing(Variable::BotToken)));
}

#[test]
fn configuration_names_what_does_not_parse() {
    let mut v = vars("sometimes");
    v.admin_ids = Some("1,x".into());
    v.rate_limit_per_sec = Some("-1".into());
    assert_eq!(Config::from_vars(v.clone()).err(), Some(ConfigError::UnknownMode));
    v.mode = Some("polling".into());
    assert_eq!(Config::from_vars(v.clone()).err(), Some(ConfigError::InvalidAdminId));
    v.admin_ids = Some("1,2".into());
    assert_eq!(Config::from_vars(v.clone()).err(), Some(ConfigError::InvalidRateLimit));
    for bad in ["", " 2", "2 ", "two", "4294967296", "1.5"] {
        v.rate_limit_per_sec = Some(bad.into());
        assert_eq!(Config::from_vars(v.clone()).err(), Some(ConfigError::InvalidRateLimit));
    }
    v.rate_limit_per_sec = Some("0".into());
    let cfg = Config::from_vars(v).unwrap();
    assert_eq!(cfg.validate(), Err(ConfigError::ZeroRateLimit));
}

#[test]
fn administrators_are_listed_between_commas() {
    let ids = |list: &str| {
        let mut v = vars("polling");
        v.admin_ids = Some(list.into());
        Config::from_vars(v).map(|cfg| cfg.admin_ids)
    };
    assert_eq!(ids(""), Ok(vec![]));
    assert_eq!(ids(" , ,\t"), Ok(vec![]));
    assert_eq!(ids("5"), Ok(vec![5]));
    assert_eq!(ids(" 5 ,6,+7,-8 "), Ok(vec![5, 6, 7, -8]));
    assert_eq!(ids("9223372036854775807,-9223372036854775808"), Ok(vec![i64::MAX, i64::MIN]));
    assert_eq!(ids("5;6"), Err(ConfigError::InvalidAdminId));
    assert_eq!(ids("5,6 7"), Err(ConfigError::InvalidAdminId));
    assert_eq!(ids("9223372036854775808"), Err(ConfigError::InvalidAdminId));
    assert_eq!(ids("x,5"), Err(ConfigError::InvalidAdminId));
}

#[test]
fn superadmin_is_who_the_configuration_lists() {
    let mut v = vars("polling");
    v.admin_ids = Some("10,20,-30".into());
    let cfg = Config::from_vars(v).unwrap();
    assert!(cfg.is_superadmin(10));
    assert!(cfg.is_superadmin(20));
    assert!(cfg.is_superadmin(-30));
    assert!(!cfg.is_superadmin(30));
    assert!(!cfg.is_superadmin(0));
    assert!(!polling("x", "sqlite://a", 1).is_superadmin(10));
}
