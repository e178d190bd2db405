//! The configuration of the bot and the rules it has to meet.

use crate::text::{
    blank, fields, has_prefix, i64_of, is_blank, lowered, parse_i64, parse_u32, str_eq, str_split,
    str_starts_with, str_trim, to_ascii_lowercase, trimmed, u32_of, views,
};
use vstd::string::StringExecFns;
use vstd::prelude::*;

verus! {

/// How the bot receives updates.
#[derive(Debug, Clone, Copy, PartialEq, Eq, Structural)]
pub enum RunMode {
    Polling,
    Webhook,
}

/// A variable that the configuration cannot do without.
#[derive(Debug, Clone, Copy, PartialEq, Eq, Structural)]
pub enum Variable {
    BotToken,
    Mode,
    DatabaseUrl,
    WebhookUrl,
    WebhookBind,
}

/// What is wrong with a configuration.
#[derive(Debug, Clone, Copy, PartialEq, Eq, Structural)]
pub enum ConfigError {
    /// A variable that is needed is not set.
    Missing(Variable),
    /// The mode is neither `polling` nor `webhook`.
    UnknownMode,
    /// An entry of the list of administrators is no 64-bit integer.
    InvalidAdminId,
    /// The rate limit is no unsigned 32-bit integer.
    InvalidRateLimit,
    /// The bot token is empty or white space.
    EmptyToken,
    /// The database URL starts with neither `sqlite://` nor `postgres://`.
    UnsupportedDatabase,
    /// The rate limit is zero.
    ZeroRateLimit,
    /// The mode is `webhook` and the webhook is not configured.
    MissingWebhook,
    /// The webhook's URL does not start with `https://`.
    InsecureWebhook,
    /// The webhook's path does not start with a slash.
    RelativeWebhookPath,
}

/// Where the bot listens for a webhook.
#[derive(Debug, Clone)]
pub struct WebhookConfig {
    pub url: String,
    /// The socket address to bind, as written: host, colon, port.
    pub bind: String,
    pub path: String,
}

/// The configuration of the bot.
#[derive(Debug, Clone)]
pub struct Config {
    pub bot_token: String,
    pub mode: RunMode,
    pub database_url: String,
    pub admin_ids: Vec<i64>,
    pub rust_log: String,
    pub rate_limit_per_sec: u32,
    pub webhook: Option<WebhookConfig>,
}

/// The variables of the environment that configure the bot, as they were
/// read: `None` for one that is not set.
#[derive(Debug, Clone)]
pub struct Vars {
    pub bot_token: Option<String>,
    pub mode: Option<String>,
    pub database_url: Option<String>,
    pub admin_ids: Option<String>,
    pub rust_log: Option<String>,
    pub rate_limit_per_sec: Option<String>,
    pub webhook_url: Option<String>,
    pub webhook_bind: Option<String>,
    pub webhook_path: Option<String>,
}

/// The identifiers that a list of fields names: fields of white space alone
/// are passed over, every other field is trimmed and must denote a 64-bit
/// integer. `None` where one does not.
pub open spec fn ids_of(entries: Seq<Seq<char>>) -> Option<Seq<i64>>
    decreases entries.len(),
{
    if entries.len() == 0 {
        Some(Seq::empty())
    } else {
        match ids_of(entries.drop_last()) {
            None => None,
            Some(ids) => if blank(entries.last()) {
                Some(ids)
            } else {
                match i64_of(trimmed(entries.last())) {
                    Some(id) => Some(ids.push(id)),
                    None => None,
                }
            },
        }
    }
}

/// The administrators that the variable names: a list of identifiers
/// separated by commas. A variable that is not set names none.
pub open spec fn admins_of(raw: Option<String>) -> Option<Seq<i64>> {
    match raw {
        Some(list) => ids_of(fields(list@, ',')),
        None => Some(Seq::empty()),
    }
}

/// The rate limit that the variable sets, 2 where it is not set; `None`
/// where it is no unsigned 32-bit integer in decimal notation.
pub open spec fn rate_of(raw: Option<String>) -> Option<u32> {
    match raw {
        Some(s) => u32_of(s@),
        None => Some(2u32),
    }
}

/// The text of a variable, or a default where it is not set.
pub open spec fn text_or(raw: Option<String>, default: Seq<char>) -> Seq<char> {
    match raw {
        Some(s) => s@,
        None => default,
    }
}

/// Why no configuration can be made of `vars`, if so. The variables are
/// looked at in a fixed order and the first fault is named: the token, the
/// mode, the database URL, the administrators, the rate limit and, in
/// webhook mode, the webhook's URL and address.
pub open spec fn vars_fault(vars: Vars) -> Option<ConfigError> {
    if vars.bot_token is None {
        Some(ConfigError::Missing(Variable::BotToken))
    } else if vars.mode is None {
        Some(ConfigError::Missing(Variable::Mode))
    } else if named_mode(vars.mode->0@) is Err {
        Some(ConfigError::UnknownMode)
    } else if vars.database_url is None {
        Some(ConfigError::Missing(Variable::DatabaseUrl))
    } else if admins_of(vars.admin_ids) is None {
        Some(ConfigError::InvalidAdminId)
    } else if rate_of(vars.rate_limit_per_sec) is None {
        Some(ConfigError::InvalidRateLimit)
    } else if named_mode(vars.mode->0@) == Ok::<RunMode, ConfigError>(RunMode::Webhook) {
        if vars.webhook_url is None {
            Some(ConfigError::Missing(Variable::WebhookUrl))
        } else if vars.webhook_bind is None {
            Some(ConfigError::Missing(Variable::WebhookBind))
        } else {
            None
        }
    } else {
        None
    }
}

/// Whether `cfg` is the configuration that `vars` describe: every variable
/// is taken as it is, the mode, the administrators and the rate limit are
/// parsed, and what is not set gets its default. The webhook is configured
/// in webhook mode only.
pub open spec fn made_of(cfg: Config, vars: Vars) -> bool {
    &&& Some(cfg.bot_token) == vars.bot_token
    &&& Ok::<RunMode, ConfigError>(cfg.mode) == named_mode(vars.mode->0@)
    &&& Some(cfg.database_url) == vars.database_url
    &&& Some(cfg.admin_ids@) == admins_of(vars.admin_ids)
    &&& cfg.rust_log@ == text_or(vars.rust_log, "info"@)
    &&& Some(cfg.rate_limit_per_sec) == rate_of(vars.rate_limit_per_sec)
    &&& match cfg.webhook {
        Some(wh) => {
            &&& cfg.mode == RunMode::Webhook
            &&& Some(wh.url) == vars.webhook_url
            &&& Some(wh.bind) == vars.webhook_bind
            &&& wh.path@ == text_or(vars.webhook_path, "/tg/webhook"@)
        },
        None => cfg.mode == RunMode::Polling,
    }
}

/// The mode that `s` names, whatever the case of its ASCII letters.
pub open spec fn named_mode(s: Seq<char>) -> Result<RunMode, ConfigError> {
    if lowered(s) == "polling"@ {
        Ok(RunMode::Polling)
    } else if lowered(s) == "webhook"@ {
        Ok(RunMode::Webhook)
    } else {
        Err(ConfigError::UnknownMode)
    }
}

/// What is wrong with a webhook, if anything.
pub open spec fn webhook_fault(webhook: Option<WebhookConfig>) -> Option<ConfigError> {
    match webhook {
        None => Some(ConfigError::MissingWebhook),
        Some(wh) => if !has_prefix(wh.url@, "https://"@) {
            Some(ConfigError::InsecureWebhook)
        } else if !has_prefix(wh.path@, seq!['/']) {
            Some(ConfigError::RelativeWebhookPath)
        } else {
            None
        },
    }
}

/// The first thing that is wrong with a configuration, if anything: the
/// token is looked at first, then the database URL, the rate limit and, in
/// webhook mode, the webhook.
pub open spec fn fault(cfg: Config) -> Option<ConfigError> {
    if blank(cfg.bot_token@) {
        Some(ConfigError::EmptyToken)
    } else if !(has_prefix(cfg.database_url@, "sqlite://"@) || has_prefix(
        cfg.database_url@,
        "postgres://"@,
    )) {
        Some(ConfigError::UnsupportedDatabase)
    } else if cfg.rate_limit_per_sec == 0 {
        Some(ConfigError::ZeroRateLimit)
    } else if cfg.mode == RunMode::Webhook {
        webhook_fault(cfg.webhook)
    } else {
        None
    }
}

/// The error in words.
pub open spec fn message_text(e: ConfigError) -> Seq<char> {
    match e {
        ConfigError::Missing(Variable::BotToken) => "missing required env var: BOT_TOKEN"@,
        ConfigError::Missing(Variable::Mode) => "missing required env var: MODE"@,
        ConfigError::Missing(Variable::DatabaseUrl) => "missing required env var: DATABASE_URL"@,
        ConfigError::Missing(Variable::WebhookUrl) => "missing required env var: WEBHOOK_URL"@,
        ConfigError::Missing(Variable::WebhookBind) => "missing required env var: WEBHOOK_BIND"@,
        ConfigError::UnknownMode => "MODE must be 'polling' or 'webhook'"@,
        ConfigError::InvalidAdminId => "invalid ADMIN_IDS entry"@,
        ConfigError::InvalidRateLimit => "RATE_LIMIT_PER_SEC must be integer"@,
        ConfigError::EmptyToken => "BOT_TOKEN cannot be empty"@,
        ConfigError::UnsupportedDatabase => {
            "DATABASE_URL must start with sqlite:// or postgres://"@
        },
        ConfigError::ZeroRateLimit => "RATE_LIMIT_PER_SEC must be > 0"@,
        ConfigError::MissingWebhook => "webhook config required"@,
        ConfigError::InsecureWebhook => "WEBHOOK_URL must be https"@,
        ConfigError::RelativeWebhookPath => "WEBHOOK_PATH must start with '/'"@,
    }
}

impl ConfigError {
    /// The error in words.
    pub fn message(&self) -> (text: &'static str)
        ensures
            text@ == message_text(*self),
    {
        match self {
            ConfigError::Missing(Variable::BotToken) => "missing required env var: BOT_TOKEN",
            ConfigError::Missing(Variable::Mode) => "missing required env var: MODE",
            ConfigError::Missing(Variable::DatabaseUrl) => "missing required env var: DATABASE_URL",
            ConfigError::Missing(Variable::WebhookUrl) => "missing required env var: WEBHOOK_URL",
            ConfigError::Missing(Variable::WebhookBind) => "missing required env var: WEBHOOK_BIND",
            ConfigError::UnknownMode => "MODE must be 'polling' or 'webhook'",
            ConfigError::InvalidAdminId => "invalid ADMIN_IDS entry",
            ConfigError::InvalidRateLimit => "RATE_LIMIT_PER_SEC must be integer",
            ConfigError::EmptyToken => "BOT_TOKEN cannot be empty",
            ConfigError::UnsupportedDatabase => {
                "DATABASE_URL must start with sqlite:// or postgres://"
            },
            ConfigError::ZeroRateLimit => "RATE_LIMIT_PER_SEC must be > 0",
            ConfigError::MissingWebhook => "webhook config required",
            ConfigError::InsecureWebhook => "WEBHOOK_URL must be https",
            ConfigError::RelativeWebhookPath => "WEBHOOK_PATH must start with '/'",
        }
    }
}

impl RunMode {
    /// The mode that `s` names: `polling` or `webhook`, in any case of letters.
    pub fn parse(s: &str) -> (mode: Result<RunMode, ConfigError>)
        ensures
            mode == named_mode(s@),
    {
        let lower = to_ascii_lowercase(s);
        if str_eq(lower.as_str(), "polling") {
            Ok(RunMode::Polling)
        } else if str_eq(lower.as_str(), "webhook") {
            Ok(RunMode::Webhook)
        } else {
            Err(ConfigError::UnknownMode)
        }
    }
}

impl std::str::FromStr for RunMode {
    type Err = ConfigError;

    /// The mode that `s` names: `polling` or `webhook`, in any case of letters.
    fn from_str(s: &str) -> (mode: Result<RunMode, ConfigError>)
        ensures
            mode == named_mode(s@),
    {
        RunMode::parse(s)
    }
}

/// The identifiers that the fields of `list` between commas name.
fn parse_admin_ids(list: &str) -> (ids: Option<Vec<i64>>)
    ensures
        match ids {
            Some(v) => Some(v@) == ids_of(fields(list@, ',')),
            None => ids_of(fields(list@, ',')) is None,
        },
{
    let entries = str_split(list, ',');
    let mut ids: Vec<i64> = Vec::new();
    let mut i: usize = 0;
    while i < entries.len()
        invariant
            i <= entries.len(),
            views(entries@) == fields(list@, ','),
            Some(ids@) == ids_of(views(entries@).take(i as int)),
        decreases entries.len() - i,
    {
        let ghost seen = views(entries@).take(i as int);
        let ghost next = views(entries@).take(i + 1);
        assert(next.drop_last() == seen);
        assert(next.last() == entries@[i as int]@);
        let entry = entries[i].as_str();
        if !is_blank(entry) {
            match parse_i64(str_trim(entry)) {
                Some(id) => ids.push(id),
                None => {
                    proof {
                        lemma_ids_fail_for_good(views(entries@), i + 1);
                    }
                    return None;
                },
            }
        }
        i += 1;
    }
    assert(views(entries@).take(entries@.len() as int) == views(entries@));
    Some(ids)
}

/// Once an entry is no identifier, no longer list is a list of identifiers.
proof fn lemma_ids_fail_for_good(entries: Seq<Seq<char>>, k: int)
    requires
        0 <= k <= entries.len(),
        ids_of(entries.take(k)) is None,
    ensures
        ids_of(entries) is None,
    decreases entries.len() - k,
{
    if k == entries.len() {
        assert(entries.take(k) == entries);
    } else {
        assert(entries.take(k + 1).drop_last() == entries.take(k));
        lemma_ids_fail_for_good(entries, k + 1);
    }
}

impl Config {
    /// Makes the configuration that `vars` describe, without checking it:
    /// `Ok` exactly where every variable that is needed is set and every
    /// variable that is parsed can be, else the first fault.
    pub fn from_vars(vars: Vars) -> (made: Result<Config, ConfigError>)
        ensures
            match made {
                Ok(cfg) => vars_fault(vars) is None && made_of(cfg, vars),
                Err(e) => vars_fault(vars) == Some(e),
            },
    {
        let bot_token = match vars.bot_token {
            Some(token) => token,
            None => {
                return Err(ConfigError::Missing(Variable::BotToken));
            },
        };
        let mode = match vars.mode {
            Some(name) => match RunMode::parse(name.as_str()) {
                Ok(mode) => mode,
                Err(e) => {
                    return Err(e);
                },
            },
            None => {
                return Err(ConfigError::Missing(Variable::Mode));
            },
        };
        let database_url = match vars.database_url {
            Some(url) => url,
            None => {
                return Err(ConfigError::Missing(Variable::DatabaseUrl));
            },
        };
        let admin_ids = match vars.admin_ids {
            Some(list) => match parse_admin_ids(list.as_str()) {
                Some(ids) => ids,
                None => {
                    return Err(ConfigError::InvalidAdminId);
                },
            },
            None => Vec::new(),
        };
        let rust_log = match vars.rust_log {
            Some(level) => level,
            None => String::from_str("info"),
        };
        let rate_limit_per_sec = match vars.rate_limit_per_sec {
            Some(limit) => match parse_u32(limit.as_str()) {
                Some(n) => n,
                None => {
                    return Err(ConfigError::InvalidRateLimit);
                },
            },
            None => 2,
        };
        let webhook = match mode {
            RunMode::Webhook => {
                let url = match vars.webhook_url {
                    Some(url) => url,
                    None => {
                        return Err(ConfigError::Missing(Variable::WebhookUrl));
                    },
                };
                let bind = match vars.webhook_bind {
                    Some(bind) => bind,
                    None => {
                        return Err(ConfigError::Missing(Variable::WebhookBind));
                    },
                };
                let path = match vars.webhook_path {
                    Some(path) => path,
                    None => String::from_str("/tg/webhook"),
                };
                Some(WebhookConfig { url, bind, path })
            },
            RunMode::Polling => None,
        };
        Ok(
            Config {
                bot_token,
                mode,
                database_url,
                admin_ids,
                rust_log,
                rate_limit_per_sec,
                webhook,
            },
        )
    }

    /// Whether `user_id` is one of the administrators that the configuration names.
    pub fn is_superadmin(&self, user_id: i64) -> (listed: bool)
        ensures
            listed == self.admin_ids@.contains(user_id),
    {
        let mut i: usize = 0;
        while i < self.admin_ids.len()
            invariant
                i <= self.admin_ids.len(),
                forall|k: int| 0 <= k < i ==> self.admin_ids@[k] != user_id,
            decreases self.admin_ids.len() - i,
        {
            if self.admin_ids[i] == user_id {
                return true;
            }
            i += 1;
        }
        false
    }

    /// Checks the configuration: `Ok` where nothing is wrong with it, else
    /// the first fault.
    pub fn validate(&self) -> (checked: Result<(), ConfigError>)
        ensures
            checked == match fault(*self) {
                Some(e) => Err::<(), ConfigError>(e),
                None => Ok(()),
            },
    {
        if is_blank(self.bot_token.as_str()) {
            return Err(ConfigError::EmptyToken);
        }
        if !(str_starts_with(self.database_url.as_str(), "sqlite://") || str_starts_with(
            self.database_url.as_str(),
            "postgres://",
        )) {
            return Err(ConfigError::UnsupportedDatabase);
        }
        if self.rate_limit_per_sec == 0 {
            return Err(ConfigError::ZeroRateLimit);
        }
        match self.mode {
            RunMode::Webhook => {},
            RunMode::Polling => {
                return Ok(());
            },
        }
        match &self.webhook {
            None => Err(ConfigError::MissingWebhook),
            Some(wh) => {
                proof {
                    reveal_strlit("/");
                    assert("/"@ == seq!['/']);
                }
                if !str_starts_with(wh.url.as_str(), "https://") {
                    Err(ConfigError::InsecureWebhook)
                } else if !str_starts_with(wh.path.as_str(), "/") {
                    Err(ConfigError::RelativeWebhookPath)
                } else {
                    Ok(())
                }
            },
        }
    }
}

} // verus!
