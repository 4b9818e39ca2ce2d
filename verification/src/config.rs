//! The configuration of the service, as it follows from the values of its
//! environment. The values are read once, at startup, and a deployment that
//! is half configured is refused.

use vstd::prelude::*;
use crate::decimal::{parse_unsigned, parsed_unsigned};
use crate::text::{
    chars_of, eq_ignore_ascii_case, find_sep, lower_text, next_sep, skip_spaces, skip_spaces_back,
    slice_text, text_of, trim_end, trim_start,
};

verus! {

/// The secret that signs tokens where none is configured, for development
/// only.
pub const DEVELOPMENT_JWT_SECRET: &'static str =
    "DEVELOPMENT_ONLY_SECRET_CHANGE_IN_PRODUCTION_32bytes";

/// Whether `a` reads `b` when the case of ASCII letters is left aside.
pub open spec fn reads(a: Seq<char>, b: Seq<char>) -> bool {
    lower_text(a) == lower_text(b)
}

/// Whether an environment name stands for production.
pub open spec fn is_production_name(environment: Seq<char>) -> bool {
    reads(environment, "production"@) || reads(environment, "prod"@)
}

/// The meaning of a yes-or-no setting; `None` for any other text.
pub open spec fn flag_value(value: Seq<char>) -> Option<bool> {
    if reads(value, "1"@) || reads(value, "true"@) || reads(value, "yes"@) {
        Some(true)
    } else if reads(value, "0"@) || reads(value, "false"@) || reads(value, "no"@) {
        Some(false)
    } else {
        None
    }
}

/// Whether `value` reads `word`, in any mix of upper and lower case.
pub fn reads_as(value: &str, word: &str) -> (r: bool)
    ensures
        r == reads(value@, word@),
{
    let v = chars_of(value);
    let w = chars_of(word);
    eq_ignore_ascii_case(&v, &w)
}

/// Whether an environment name stands for production: `production` or
/// `prod`, in any mix of upper and lower case.
pub fn is_production(environment: &str) -> (r: bool)
    ensures
        r == is_production_name(environment@),
{
    reads_as(environment, "production") || reads_as(environment, "prod")
}

/// Reads a yes-or-no setting.
pub fn parse_flag(value: &str) -> (r: Option<bool>)
    ensures
        r == flag_value(value@),
{
    if reads_as(value, "1") || reads_as(value, "true") || reads_as(value, "yes") {
        Some(true)
    } else if reads_as(value, "0") || reads_as(value, "false") || reads_as(value, "no") {
        Some(false)
    } else {
        None
    }
}

/// The secret to sign with: the configured one; without it the development
/// secret, and that only where the build is one for development.
pub open spec fn secret_choice(configured: Option<Seq<char>>, development: bool) -> Option<Seq<char>> {
    match configured {
        Some(s) => Some(s),
        None => if development {
            Some(DEVELOPMENT_JWT_SECRET@)
        } else {
            None
        },
    }
}

/// Chooses the signing secret. `None` means that the service must not
/// start: it would sign with a secret that anyone can guess.
pub fn jwt_secret(configured: Option<String>, development: bool) -> (r: Option<String>)
    ensures
        text_of(r) == secret_choice(text_of(configured), development),
{
    match configured {
        Some(s) => Some(s),
        None => {
            if development {
                Some(DEVELOPMENT_JWT_SECRET.to_owned())
            } else {
                None
            }
        },
    }
}

/// The origins in a comma-separated list from index `from` on: each item
/// without the white space around it, and no empty item.
pub open spec fn origins_from(s: Seq<char>, from: int) -> Seq<Seq<char>>
    decreases s.len() - from,
{
    let end = next_sep(s, ',', from);
    let lo = trim_start(s, from, end);
    let hi = trim_end(s, lo, end);
    if from < 0 || from > s.len() || end < from {
        Seq::empty()
    } else {
        let rest = if end >= s.len() {
            Seq::empty()
        } else {
            origins_from(s, end + 1)
        };
        if hi > lo {
            seq![s.subrange(lo, hi)] + rest
        } else {
            rest
        }
    }
}

/// The texts of a list of strings.
pub open spec fn texts_of(list: Seq<String>) -> Seq<Seq<char>> {
    Seq::new(list.len(), |i: int| list[i]@)
}

/// Splits a comma-separated list of origins.
pub fn split_origins(value: &str) -> (origins: Vec<String>)
    ensures
        texts_of(origins@) == origins_from(value@, 0),
{
    let s = chars_of(value);
    let n = s.len();
    let mut origins: Vec<String> = Vec::new();
    let mut from: usize = 0;
    assert(texts_of(origins@) + origins_from(s@, 0) =~= origins_from(s@, 0));
    loop
        invariant
            s@ == value@,
            n == s.len(),
            from <= n,
            texts_of(origins@) + origins_from(s@, from as int) == origins_from(value@, 0),
        decreases n - from,
    {
        let end = find_sep(&s, ',', from);
        let lo = skip_spaces(&s, from, end);
        let hi = skip_spaces_back(&s, lo, end);
        let ghost before = texts_of(origins@);
        if hi > lo {
            origins.push(slice_text(value, lo, hi));
            assert(texts_of(origins@) =~= before + seq![s@.subrange(lo as int, hi as int)]);
        }
        if end >= n {
            assert(texts_of(origins@) + Seq::<Seq<char>>::empty() =~= texts_of(origins@));
            return origins;
        }
        assert(texts_of(origins@) + origins_from(s@, end + 1) =~= before + origins_from(
            s@,
            from as int,
        ));
        from = end + 1;
    }
}

/// The origins that a development run allows where none are configured.
pub fn default_origins() -> (origins: Vec<String>)
    ensures
        texts_of(origins@) == seq![
            "http://localhost:8081"@,
            "http://localhost:19006"@,
            "http://127.0.0.1:8081"@,
            "http://10.0.2.2:8081"@,
        ],
{
    let mut origins: Vec<String> = Vec::new();
    origins.push("http://localhost:8081".to_owned());
    origins.push("http://localhost:19006".to_owned());
    origins.push("http://127.0.0.1:8081".to_owned());
    origins.push("http://10.0.2.2:8081".to_owned());
    assert(texts_of(origins@) =~= seq![
        "http://localhost:8081"@,
        "http://localhost:19006"@,
        "http://127.0.0.1:8081"@,
        "http://10.0.2.2:8081"@,
    ]);
    origins
}

/// Whether the database is required: as the setting says, and without a
/// readable setting, whenever a database is configured.
pub open spec fn requires_database(setting: Option<Seq<char>>, has_url: bool) -> bool {
    match setting {
        Some(v) => match flag_value(v) {
            Some(b) => b,
            None => has_url,
        },
        None => has_url,
    }
}

/// Decides whether the database is required.
pub fn database_required(setting: &Option<String>, has_url: bool) -> (r: bool)
    ensures
        r == requires_database(text_of(*setting), has_url),
{
    match setting {
        Some(v) => match parse_flag(v.as_str()) {
            Some(b) => b,
            None => has_url,
        },
        None => has_url,
    }
}

/// What is wrong with a configuration, if anything: a required database
/// without an address, or a production run without origins or without a
/// signing secret. The first fault in this order is the one that is named.
pub open spec fn config_fault(
    database_required: bool,
    has_url: bool,
    production: bool,
    has_origins: bool,
    has_secret: bool,
) -> Option<Seq<char>> {
    if database_required && !has_url {
        Some("DATABASE_REQUIRED=true but DATABASE_URL is missing"@)
    } else if production && !has_origins {
        Some("ALLOWED_ORIGINS must be set in production"@)
    } else if production && !has_secret {
        Some("JWT_SECRET must be set in production"@)
    } else {
        None
    }
}

/// Holds a configuration to the rules of startup.
pub fn check_config(
    database_required: bool,
    has_url: bool,
    production: bool,
    has_origins: bool,
    has_secret: bool,
) -> (r: Result<(), String>)
    ensures
        match config_fault(database_required, has_url, production, has_origins, has_secret) {
            Some(message) => r is Err && r->Err_0@ == message,
            None => r is Ok,
        },
{
    if database_required && !has_url {
        Err("DATABASE_REQUIRED=true but DATABASE_URL is missing".to_owned())
    } else if production && !has_origins {
        Err("ALLOWED_ORIGINS must be set in production".to_owned())
    } else if production && !has_secret {
        Err("JWT_SECRET must be set in production".to_owned())
    } else {
        Ok(())
    }
}

/// The settings of the service.
#[derive(Debug, Clone)]
pub struct AppConfig {
    /// The address to bind, as text.
    pub host: String,
    pub port: u16,
    pub database_url: Option<String>,
    pub database_required: bool,
    pub allowed_origins: Vec<String>,
    /// The name of the environment, in lower case.
    pub environment: String,
}

/// The values of the environment that the settings follow from. `None`
/// stands for a variable that is not set.
#[derive(Debug, Clone)]
pub struct EnvValues {
    /// The address to bind: a valid one, or the default.
    pub host: String,
    pub port: Option<String>,
    pub database_url: Option<String>,
    pub database_required: Option<String>,
    pub environment: Option<String>,
    pub allowed_origins: Option<String>,
    /// Whether a signing secret is configured.
    pub has_jwt_secret: bool,
}

/// The number that a setting names, where it names one of at most `max`;
/// else the default.
pub open spec fn number_of(setting: Option<Seq<char>>, max: u64, default: u64) -> u64 {
    match setting {
        Some(s) => match parsed_unsigned(s, max) {
            Some(n) => n,
            None => default,
        },
        None => default,
    }
}

/// The port that a setting names: a number of 16 bits, else 8000.
pub open spec fn port_of(setting: Option<Seq<char>>) -> u16 {
    number_of(setting, 65535, 8000) as u16
}

/// Whether a text holds nothing but white space.
pub open spec fn is_blank(s: Seq<char>) -> bool {
    trim_start(s, 0, s.len() as int) == s.len()
}

/// The address of the database: the setting, unless it is blank.
pub open spec fn url_of(setting: Option<Seq<char>>) -> Option<Seq<char>> {
    match setting {
        Some(s) => if is_blank(s) {
            None
        } else {
            Some(s)
        },
        None => None,
    }
}

/// The name of the environment in lower case; `development` where none is
/// set.
pub open spec fn environment_of(setting: Option<Seq<char>>) -> Seq<char> {
    match setting {
        Some(s) => lower_text(s),
        None => "development"@,
    }
}

/// The allowed origins: those of the setting; without a setting none in
/// production, and the development defaults elsewhere.
pub open spec fn origins_of(setting: Option<Seq<char>>, production: bool) -> Seq<Seq<char>> {
    match setting {
        Some(s) => origins_from(s, 0),
        None => if production {
            Seq::empty()
        } else {
            seq![
                "http://localhost:8081"@,
                "http://localhost:19006"@,
                "http://127.0.0.1:8081"@,
                "http://10.0.2.2:8081"@,
            ]
        },
    }
}

/// The fault of a set of values, if they have one.
pub open spec fn values_fault(values: EnvValues) -> Option<Seq<char>> {
    let url = url_of(text_of(values.database_url));
    let production = is_production_name(environment_of(text_of(values.environment)));
    config_fault(
        requires_database(text_of(values.database_required), url is Some),
        url is Some,
        production,
        origins_of(text_of(values.allowed_origins), production).len() > 0,
        values.has_jwt_secret,
    )
}

/// Calls `str::to_ascii_lowercase`. Trusted: ASCII letters come back in
/// lower case and every other character as it is.
#[verifier::external_body]
fn ascii_lower(s: &str) -> (r: String)
    ensures
        r@ == lower_text(s@),
{
    s.to_ascii_lowercase()
}

/// Reads a numeric setting: its number where it names one of at most
/// `max`, else the default.
pub fn number_or(setting: &Option<String>, max: u64, default: u64) -> (n: u64)
    ensures
        n == number_of(text_of(*setting), max, default),
{
    match setting {
        Some(s) => match parse_unsigned(s.as_str(), max) {
            Some(n) => n,
            None => default,
        },
        None => default,
    }
}

/// Reads a port.
pub fn parse_port(setting: &Option<String>) -> (port: u16)
    ensures
        port == port_of(text_of(*setting)),
{
    number_or(setting, 65535, 8000) as u16
}

impl AppConfig {
    /// Derives the settings from the values of the environment, or says
    /// what is missing.
    pub fn from_values(values: EnvValues) -> (r: Result<AppConfig, String>)
        ensures
            match values_fault(values) {
                Some(message) => r is Err && r->Err_0@ == message,
                None => r is Ok,
            },
            r matches Ok(config) ==> {
                &&& config.host@ == values.host@
                &&& config.port == port_of(text_of(values.port))
                &&& text_of(config.database_url) == url_of(text_of(values.database_url))
                &&& config.database_required == requires_database(
                    text_of(values.database_required),
                    config.database_url is Some,
                )
                &&& config.environment@ == environment_of(text_of(values.environment))
                &&& texts_of(config.allowed_origins@) == origins_of(
                    text_of(values.allowed_origins),
                    is_production_name(config.environment@),
                )
            },
    {
        let port = parse_port(&values.port);
        let database_url = match values.database_url {
            Some(url) => {
                let chars = chars_of(url.as_str());
                if skip_spaces(&chars, 0, chars.len()) == chars.len() {
                    None
                } else {
                    Some(url)
                }
            },
            None => None,
        };
        let required = database_required(&values.database_required, database_url.is_some());
        let environment = match &values.environment {
            Some(name) => ascii_lower(name.as_str()),
            None => "development".to_owned(),
        };
        let production = is_production(environment.as_str());
        let allowed_origins = match &values.allowed_origins {
            Some(list) => split_origins(list.as_str()),
            None => {
                if production {
                    let none: Vec<String> = Vec::new();
                    assert(texts_of(none@) =~= Seq::<Seq<char>>::empty());
                    none
                } else {
                    default_origins()
                }
            },
        };
        match check_config(
            required,
            database_url.is_some(),
            production,
            allowed_origins.len() > 0,
            values.has_jwt_secret,
        ) {
            Err(message) => Err(message),
            Ok(()) => Ok(
                AppConfig {
                    host: values.host,
                    port,
                    database_url,
                    database_required: required,
                    allowed_origins,
                    environment,
                },
            ),
        }
    }

    /// Whether this is a production run.
    pub fn is_production(&self) -> (r: bool)
        ensures
            r == is_production_name(self.environment@),
    {
        is_production(self.environment.as_str())
    }
}

} // verus!
