//! The configuration values the server decides about: built-in defaults,
//! the names of the environment variables, the `_FILE` suffix convention
//! and the parsing of the cookie flag.
//!
//! Configuration sources, later ones override earlier ones: the built-in
//! defaults, the YAML config file, the environment variables.

use vstd::prelude::*;
use vstd::string::*;

use crate::text::{debug_quoted, debug_text, str_eq, trim_line_endings, trim_line_endings_spec};

verus! {

broadcast use vstd::string::group_string_axioms;

/// A string that must never end up in logs (passwords etc.).
pub struct Secret(pub String);

pub const CONFIG_VARIABLE: &'static str = "IMPEDANZ_CONFIG";
pub const BIND_ADDRESS_VARIABLE: &'static str = "IMPEDANZ_BIND_ADDRESS";
pub const PUBLIC_DIR_VARIABLE: &'static str = "IMPEDANZ_PUBLIC_DIR";
pub const LOG_FILTER_VARIABLE: &'static str = "IMPEDANZ_LOG_FILTER";
pub const DATABASE_PATH_VARIABLE: &'static str = "IMPEDANZ_DATABASE_PATH";
pub const MEDIA_DIR_VARIABLE: &'static str = "IMPEDANZ_MEDIA_DIR";
pub const COOKIE_SECURE_VARIABLE: &'static str = "IMPEDANZ_COOKIE_SECURE";
pub const INITIAL_ADMIN_USERNAME_VARIABLE: &'static str = "IMPEDANZ_INITIAL_ADMIN_USERNAME";
pub const INITIAL_ADMIN_PASSWORD_VARIABLE: &'static str = "IMPEDANZ_INITIAL_ADMIN_PASSWORD";

pub const DEFAULT_CONFIG_PATH: &'static str = "/config.yaml";
/// `[::]` binds dual stack on Linux, so IPv4 stays reachable via mapped
/// addresses.
pub const DEFAULT_BIND_ADDRESS: &'static str = "[::]:80";
pub const DEFAULT_PUBLIC_DIR: &'static str = "/public";
pub const DEFAULT_LOG_FILTER: &'static str = "info";
pub const DEFAULT_DATABASE_PATH: &'static str = "/data/impedanz.db";
pub const DEFAULT_MEDIA_DIR: &'static str = "/data/media";

/// Settings other than the listen address, with paths as text.
pub struct Settings {
    pub public_dir: String,
    pub log_filter: String,
    pub database_path: String,
    pub media_dir: String,
    pub cookie_secure: bool,
    pub initial_admin_username: Option<String>,
    pub initial_admin_password: Option<Secret>,
}

impl Settings {
    /// The built-in defaults.
    pub fn defaults() -> (r: Settings)
        ensures
            r.public_dir@ == DEFAULT_PUBLIC_DIR@,
            r.log_filter@ == DEFAULT_LOG_FILTER@,
            r.database_path@ == DEFAULT_DATABASE_PATH@,
            r.media_dir@ == DEFAULT_MEDIA_DIR@,
            r.cookie_secure,
            r.initial_admin_username is None,
            r.initial_admin_password is None,
    {
        Settings {
            public_dir: DEFAULT_PUBLIC_DIR.to_string(),
            log_filter: DEFAULT_LOG_FILTER.to_string(),
            database_path: DEFAULT_DATABASE_PATH.to_string(),
            media_dir: DEFAULT_MEDIA_DIR.to_string(),
            cookie_secure: true,
            initial_admin_username: None,
            initial_admin_password: None,
        }
    }
}

/// A variable was set to a value the server cannot use.
#[derive(Debug)]
pub struct InvalidValue {
    pub variable: String,
    pub message: String,
}

/// How a cookie-flag text is read: `true`/`1` and `false`/`0`.
pub open spec fn cookie_flag(value: Seq<char>) -> Option<bool> {
    if value == "true"@ || value == "1"@ {
        Some(true)
    } else if value == "false"@ || value == "0"@ {
        Some(false)
    } else {
        None
    }
}

/// Reads the value of `IMPEDANZ_COOKIE_SECURE`.
pub fn parse_cookie_secure(value: &str) -> (r: Result<bool, InvalidValue>)
    ensures
        match cookie_flag(value@) {
            Some(flag) => r == Ok::<bool, InvalidValue>(flag),
            None => r matches Err(e) && e.variable@ == COOKIE_SECURE_VARIABLE@ && e.message@
                == "expected true/false, got "@ + debug_text(value@),
        },
{
    if str_eq(value, "true") || str_eq(value, "1") {
        Ok(true)
    } else if str_eq(value, "false") || str_eq(value, "0") {
        Ok(false)
    } else {
        let quoted = debug_quoted(value);
        let message = "expected true/false, got ".to_string().concat(quoted.as_str());
        Err(InvalidValue { variable: COOKIE_SECURE_VARIABLE.to_string(), message })
    }
}

/// A setting that an environment variable overrides.
#[derive(Clone, Copy, Debug, PartialEq, Eq, Structural)]
pub enum Setting {
    PublicDir,
    LogFilter,
    DatabasePath,
    MediaDir,
    CookieSecure,
    InitialAdminUsername,
    InitialAdminPassword,
}

/// The variable that overrides a setting.
pub open spec fn variable_of(setting: Setting) -> Seq<char> {
    match setting {
        Setting::PublicDir => PUBLIC_DIR_VARIABLE@,
        Setting::LogFilter => LOG_FILTER_VARIABLE@,
        Setting::DatabasePath => DATABASE_PATH_VARIABLE@,
        Setting::MediaDir => MEDIA_DIR_VARIABLE@,
        Setting::CookieSecure => COOKIE_SECURE_VARIABLE@,
        Setting::InitialAdminUsername => INITIAL_ADMIN_USERNAME_VARIABLE@,
        Setting::InitialAdminPassword => INITIAL_ADMIN_PASSWORD_VARIABLE@,
    }
}

impl Setting {
    pub fn variable(self) -> (r: &'static str)
        ensures
            r@ == variable_of(self),
    {
        match self {
            Setting::PublicDir => PUBLIC_DIR_VARIABLE,
            Setting::LogFilter => LOG_FILTER_VARIABLE,
            Setting::DatabasePath => DATABASE_PATH_VARIABLE,
            Setting::MediaDir => MEDIA_DIR_VARIABLE,
            Setting::CookieSecure => COOKIE_SECURE_VARIABLE,
            Setting::InitialAdminUsername => INITIAL_ADMIN_USERNAME_VARIABLE,
            Setting::InitialAdminPassword => INITIAL_ADMIN_PASSWORD_VARIABLE,
        }
    }
}

/// The order in which the environment is consulted after the listen
/// address (which comes first).
pub open spec fn override_order() -> Seq<Setting> {
    seq![
        Setting::PublicDir,
        Setting::LogFilter,
        Setting::DatabasePath,
        Setting::MediaDir,
        Setting::CookieSecure,
        Setting::InitialAdminUsername,
        Setting::InitialAdminPassword,
    ]
}

pub fn overrides_in_order() -> (r: Vec<Setting>)
    ensures
        r@ == override_order(),
{
    let r = vec![
        Setting::PublicDir,
        Setting::LogFilter,
        Setting::DatabasePath,
        Setting::MediaDir,
        Setting::CookieSecure,
        Setting::InitialAdminUsername,
        Setting::InitialAdminPassword,
    ];
    assert(r@ =~= override_order());
    r
}

/// The settings after `setting` was overridden with `value`: the value
/// replaces the one from the defaults or the config file, and every other
/// setting stays as it was. Only the cookie flag can be refused.
pub open spec fn overridden(settings: Settings, setting: Setting, value: String) -> Option<Settings> {
    match setting {
        Setting::PublicDir => Some(Settings { public_dir: value, ..settings }),
        Setting::LogFilter => Some(Settings { log_filter: value, ..settings }),
        Setting::DatabasePath => Some(Settings { database_path: value, ..settings }),
        Setting::MediaDir => Some(Settings { media_dir: value, ..settings }),
        Setting::CookieSecure => match cookie_flag(value@) {
            Some(flag) => Some(Settings { cookie_secure: flag, ..settings }),
            None => None,
        },
        Setting::InitialAdminUsername => Some(
            Settings { initial_admin_username: Some(value), ..settings },
        ),
        Setting::InitialAdminPassword => Some(
            Settings { initial_admin_password: Some(Secret(value)), ..settings },
        ),
    }
}

/// Applies the value an environment variable holds for `setting`.
pub fn apply_override(settings: Settings, setting: Setting, value: String) -> (r: Result<
    Settings,
    InvalidValue,
>)
    ensures
        match overridden(settings, setting, value) {
            Some(s) => r == Ok::<Settings, InvalidValue>(s),
            None => r matches Err(e) && e.variable@ == COOKIE_SECURE_VARIABLE@ && e.message@
                == "expected true/false, got "@ + debug_text(value@),
        },
{
    match setting {
        Setting::PublicDir => Ok(Settings { public_dir: value, ..settings }),
        Setting::LogFilter => Ok(Settings { log_filter: value, ..settings }),
        Setting::DatabasePath => Ok(Settings { database_path: value, ..settings }),
        Setting::MediaDir => Ok(Settings { media_dir: value, ..settings }),
        Setting::CookieSecure => match parse_cookie_secure(value.as_str()) {
            Ok(flag) => Ok(Settings { cookie_secure: flag, ..settings }),
            Err(e) => Err(e),
        },
        Setting::InitialAdminUsername => Ok(
            Settings { initial_admin_username: Some(value), ..settings },
        ),
        Setting::InitialAdminPassword => Ok(
            Settings { initial_admin_password: Some(Secret(value)), ..settings },
        ),
    }
}

/// The companion variable of the `_FILE` convention: when `<variable>_FILE`
/// is set, the value is read from the file it names.
pub fn file_variable(variable: &str) -> (r: String)
    ensures
        r@ == variable@ + "_FILE"@,
{
    variable.to_string().concat("_FILE")
}

/// The value a file holds under the `_FILE` convention: its contents without
/// trailing line breaks.
pub fn file_value(contents: &str) -> (r: String)
    ensures
        r@ == trim_line_endings_spec(contents@),
{
    trim_line_endings(contents).to_string()
}

/// Later sources override earlier ones: overriding a setting that an
/// earlier source already set leaves only the later value.
pub proof fn lemma_later_override_wins(
    settings: Settings,
    setting: Setting,
    earlier: String,
    later: String,
)
    requires
        overridden(settings, setting, earlier) is Some,
    ensures
        overridden(overridden(settings, setting, earlier)->Some_0, setting, later) == overridden(
            settings,
            setting,
            later,
        ),
{
}

/// `after` holds the same values as `before` in every setting but `changed`.
pub open spec fn same_but(before: Settings, after: Settings, changed: Setting) -> bool {
    &&& (changed != Setting::PublicDir ==> after.public_dir == before.public_dir)
    &&& (changed != Setting::LogFilter ==> after.log_filter == before.log_filter)
    &&& (changed != Setting::DatabasePath ==> after.database_path == before.database_path)
    &&& (changed != Setting::MediaDir ==> after.media_dir == before.media_dir)
    &&& (changed != Setting::CookieSecure ==> after.cookie_secure == before.cookie_secure)
    &&& (changed != Setting::InitialAdminUsername ==> after.initial_admin_username
        == before.initial_admin_username)
    &&& (changed != Setting::InitialAdminPassword ==> after.initial_admin_password
        == before.initial_admin_password)
}

/// Each environment variable sets the setting it is named for, and nothing
/// else: `IMPEDANZ_PUBLIC_DIR` the public directory, `IMPEDANZ_LOG_FILTER`
/// the log filter, `IMPEDANZ_DATABASE_PATH` the database file,
/// `IMPEDANZ_MEDIA_DIR` the media directory, `IMPEDANZ_COOKIE_SECURE` the
/// cookie flag (`true`/`1` or `false`/`0`, anything else refused), and the
/// two `IMPEDANZ_INITIAL_ADMIN_*` variables the bootstrap credentials.
pub proof fn lemma_each_variable_sets_its_own_setting(
    settings: Settings,
    setting: Setting,
    value: String,
)
    ensures
        variable_of(Setting::PublicDir) == "IMPEDANZ_PUBLIC_DIR"@,
        variable_of(Setting::LogFilter) == "IMPEDANZ_LOG_FILTER"@,
        variable_of(Setting::DatabasePath) == "IMPEDANZ_DATABASE_PATH"@,
        variable_of(Setting::MediaDir) == "IMPEDANZ_MEDIA_DIR"@,
        variable_of(Setting::CookieSecure) == "IMPEDANZ_COOKIE_SECURE"@,
        variable_of(Setting::InitialAdminUsername) == "IMPEDANZ_INITIAL_ADMIN_USERNAME"@,
        variable_of(Setting::InitialAdminPassword) == "IMPEDANZ_INITIAL_ADMIN_PASSWORD"@,
        overridden(settings, setting, value) is None <==> (setting == Setting::CookieSecure && !(
        value@ == "true"@ || value@ == "1"@ || value@ == "false"@ || value@ == "0"@)),
        overridden(settings, setting, value) matches Some(r) ==> same_but(settings, r, setting),
        overridden(settings, setting, value) matches Some(r) ==> match setting {
            Setting::PublicDir => r.public_dir == value,
            Setting::LogFilter => r.log_filter == value,
            Setting::DatabasePath => r.database_path == value,
            Setting::MediaDir => r.media_dir == value,
            Setting::CookieSecure => r.cookie_secure == (value@ == "true"@ || value@ == "1"@),
            Setting::InitialAdminUsername => r.initial_admin_username == Some(value),
            Setting::InitialAdminPassword => r.initial_admin_password == Some(Secret(value)),
        },
{
    reveal_strlit("true");
    reveal_strlit("1");
    reveal_strlit("false");
    reveal_strlit("0");
}

} // verus!
