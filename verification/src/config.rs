//! Configuration of the services, read from environment variables.
//!
//! Reading the environment itself is left to the caller, who hands over
//! the variables as pairs of name and value.

use vstd::prelude::*;
use vstd::string::*;
use crate::error::{AppError, AppErrorView, AppResult, ErrorKind};
use crate::text::{
    chars_of, parse_unsigned, split, split_at_char, str_eq, string_of, unsigned_value,
};

verus! {

/// Configuration for the TerraFusionPro services.
#[derive(Debug, Clone, PartialEq, Eq)]
pub struct Config {
    /// Database configuration.
    pub database: DatabaseConfig,
    /// Server configuration.
    pub server: ServerConfig,
    /// Security configuration.
    pub security: SecurityConfig,
    /// External services configuration.
    pub services: ServicesConfig,
}

/// Database configuration.
#[derive(Debug, Clone, PartialEq, Eq)]
pub struct DatabaseConfig {
    /// Database URL.
    pub url: String,
    /// Maximum number of connections in the pool.
    pub max_connections: u32,
    /// Whether to run migrations automatically.
    pub run_migrations: bool,
}

/// Server configuration.
#[derive(Debug, Clone, PartialEq, Eq)]
pub struct ServerConfig {
    /// Host to bind the server to.
    pub host: String,
    /// Port to listen on.
    pub port: u16,
    /// CORS allowed origins.
    pub cors_origins: Vec<String>,
    /// Whether to enable HTTPS.
    pub use_https: bool,
}

/// Security configuration.
#[derive(Debug, Clone, PartialEq, Eq)]
pub struct SecurityConfig {
    /// JWT secret key.
    pub jwt_secret: String,
    /// JWT token expiration in seconds.
    pub jwt_expiration: u64,
    /// Refresh token expiration in seconds.
    pub refresh_expiration: u64,
    /// Password hashing rounds.
    pub password_hash_rounds: u32,
}

/// External services configuration.
#[derive(Debug, Clone, PartialEq, Eq)]
pub struct ServicesConfig {
    /// Base URLs for all services.
    pub service_urls: ServiceUrls,
    /// Third-party API keys.
    pub api_keys: ApiKeys,
}

/// Service URLs.
#[derive(Debug, Clone, PartialEq, Eq)]
pub struct ServiceUrls {
    pub api_gateway: String,
    pub property_service: String,
    pub user_service: String,
    pub report_service: String,
    pub form_service: String,
    pub analysis_service: String,
}

/// Third-party API keys.
#[derive(Debug, Clone, PartialEq, Eq)]
pub struct ApiKeys {
    pub google_maps: Option<String>,
    pub zillow: Option<String>,
    pub aws_access_key: Option<String>,
    pub aws_secret_key: Option<String>,
}

/// Environment variables as pairs of name and value.
pub open spec fn vars_view(vars: Seq<(String, String)>) -> Seq<(Seq<char>, Seq<char>)> {
    Seq::new(vars.len(), |i: int| (vars[i].0@, vars[i].1@))
}

/// The value of the first variable called `name`.
pub open spec fn lookup(vars: Seq<(Seq<char>, Seq<char>)>, name: Seq<char>) -> Option<Seq<char>>
    decreases vars.len(),
{
    if vars.len() == 0 {
        None
    } else if vars[0].0 == name {
        Some(vars[0].1)
    } else {
        lookup(vars.drop_first(), name)
    }
}

/// The value of `name`, or `default` where it is not set.
pub open spec fn text_or(
    vars: Seq<(Seq<char>, Seq<char>)>,
    name: Seq<char>,
    default: Seq<char>,
) -> Seq<char> {
    match lookup(vars, name) {
        Some(value) => value,
        None => default,
    }
}

/// The number that `name` is set to, `default` where it is not set, and
/// `None` where it is set to something that is no number up to `max`.
pub open spec fn number_or(
    vars: Seq<(Seq<char>, Seq<char>)>,
    name: Seq<char>,
    max: nat,
    default: nat,
) -> Option<nat> {
    match lookup(vars, name) {
        Some(value) => unsigned_value(value, max),
        None => Some(default),
    }
}

/// The truth value that a text stands for: `true` or `false`, nothing else.
pub open spec fn flag_value(value: Seq<char>) -> Option<bool> {
    if value == "true"@ {
        Some(true)
    } else if value == "false"@ {
        Some(false)
    } else {
        None
    }
}

/// The truth value that `name` is set to, `default` where it is not set,
/// and `None` where it is set to something else than `true` or `false`.
pub open spec fn flag_or(
    vars: Seq<(Seq<char>, Seq<char>)>,
    name: Seq<char>,
    default: bool,
) -> Option<bool> {
    match lookup(vars, name) {
        Some(value) => flag_value(value),
        None => Some(default),
    }
}

/// Whether `c` is white space.
pub open spec fn is_space(c: char) -> bool {
    let u = c as u32;
    (0x09 <= u <= 0x0d) || u == 0x20 || u == 0x85 || u == 0xa0 || u == 0x1680 || (0x2000 <= u
        <= 0x200a) || u == 0x2028 || u == 0x2029 || u == 0x202f || u == 0x205f || u == 0x3000
}

/// Number of white-space characters at the start of `s`.
pub open spec fn leading_spaces(s: Seq<char>) -> int
    decreases s.len(),
{
    if s.len() > 0 && is_space(s[0]) {
        1 + leading_spaces(s.drop_first())
    } else {
        0
    }
}

/// Number of white-space characters at the end of `s`.
pub open spec fn trailing_spaces(s: Seq<char>) -> int
    decreases s.len(),
{
    if s.len() > 0 && is_space(s.last()) {
        1 + trailing_spaces(s.drop_last())
    } else {
        0
    }
}

/// `s` without the white space at its start and at its end.
pub open spec fn trimmed(s: Seq<char>) -> Seq<char> {
    let from = leading_spaces(s);
    let rest = s.skip(from);
    rest.take(rest.len() - trailing_spaces(rest))
}

/// The allowed origins: the trimmed pieces of `CORS_ORIGINS` between
/// commas, or `*` alone where it is not set.
pub open spec fn origins_of(vars: Seq<(Seq<char>, Seq<char>)>) -> Seq<Seq<char>> {
    match lookup(vars, "CORS_ORIGINS"@) {
        Some(value) => split(value, ',').map_values(|piece: Seq<char>| trimmed(piece)),
        None => seq!["*"@],
    }
}

/// Why the variables give no configuration, if they do not: the first of
/// the checks that fails, in the order in which they are made.
pub open spec fn config_fault(vars: Seq<(Seq<char>, Seq<char>)>) -> Option<Seq<char>> {
    if lookup(vars, "DATABASE_URL"@) is None {
        Some("DATABASE_URL must be set"@)
    } else if number_or(vars, "PORT"@, 0xffff, 5000) is None {
        Some("PORT must be a valid number"@)
    } else if number_or(vars, "DB_MAX_CONNECTIONS"@, 0xffff_ffff, 10) is None {
        Some("DB_MAX_CONNECTIONS must be a valid number"@)
    } else if flag_or(vars, "RUN_MIGRATIONS"@, true) is None {
        Some("RUN_MIGRATIONS must be a boolean"@)
    } else if number_or(vars, "JWT_EXPIRATION"@, 0xffff_ffff_ffff_ffff, 3600) is None {
        Some("JWT_EXPIRATION must be a valid number"@)
    } else if number_or(vars, "REFRESH_EXPIRATION"@, 0xffff_ffff_ffff_ffff, 604800) is None {
        Some("REFRESH_EXPIRATION must be a valid number"@)
    } else if number_or(vars, "PASSWORD_HASH_ROUNDS"@, 0xffff_ffff, 12) is None {
        Some("PASSWORD_HASH_ROUNDS must be a valid number"@)
    } else if flag_or(vars, "USE_HTTPS"@, false) is None {
        Some("USE_HTTPS must be a boolean"@)
    } else {
        None
    }
}

/// Whether `config` is what the variables say.
pub open spec fn config_reads(vars: Seq<(Seq<char>, Seq<char>)>, config: Config) -> bool {
    &&& Some(config.database.url@) == lookup(vars, "DATABASE_URL"@)
    &&& Some(config.database.max_connections as nat) == number_or(
        vars,
        "DB_MAX_CONNECTIONS"@,
        0xffff_ffff,
        10,
    )
    &&& Some(config.database.run_migrations) == flag_or(vars, "RUN_MIGRATIONS"@, true)
    &&& config.server.host@ == text_or(vars, "HOST"@, "0.0.0.0"@)
    &&& Some(config.server.port as nat) == number_or(vars, "PORT"@, 0xffff, 5000)
    &&& config.server.cors_origins.deep_view() == origins_of(vars)
    &&& Some(config.server.use_https) == flag_or(vars, "USE_HTTPS"@, false)
    &&& config.security.jwt_secret@ == text_or(
        vars,
        "JWT_SECRET"@,
        "default_jwt_secret_change_me_in_production"@,
    )
    &&& Some(config.security.jwt_expiration as nat) == number_or(
        vars,
        "JWT_EXPIRATION"@,
        0xffff_ffff_ffff_ffff,
        3600,
    )
    &&& Some(config.security.refresh_expiration as nat) == number_or(
        vars,
        "REFRESH_EXPIRATION"@,
        0xffff_ffff_ffff_ffff,
        604800,
    )
    &&& Some(config.security.password_hash_rounds as nat) == number_or(
        vars,
        "PASSWORD_HASH_ROUNDS"@,
        0xffff_ffff,
        12,
    )
    &&& config.services.service_urls.api_gateway@ == text_or(
        vars,
        "API_GATEWAY_URL"@,
        "http://localhost:5002"@,
    )
    &&& config.services.service_urls.property_service@ == text_or(
        vars,
        "PROPERTY_SERVICE_URL"@,
        "http://localhost:5003"@,
    )
    &&& config.services.service_urls.user_service@ == text_or(
        vars,
        "USER_SERVICE_URL"@,
        "http://localhost:5004"@,
    )
    &&& config.services.service_urls.form_service@ == text_or(
        vars,
        "FORM_SERVICE_URL"@,
        "http://localhost:5005"@,
    )
    &&& config.services.service_urls.analysis_service@ == text_or(
        vars,
        "ANALYSIS_SERVICE_URL"@,
        "http://localhost:5006"@,
    )
    &&& config.services.service_urls.report_service@ == text_or(
        vars,
        "REPORT_SERVICE_URL"@,
        "http://localhost:5007"@,
    )
    &&& config.services.api_keys.google_maps.deep_view() == lookup(vars, "GOOGLE_MAPS_API_KEY"@)
    &&& config.services.api_keys.zillow.deep_view() == lookup(vars, "ZILLOW_API_KEY"@)
    &&& config.services.api_keys.aws_access_key.deep_view() == lookup(vars, "AWS_ACCESS_KEY_ID"@)
    &&& config.services.api_keys.aws_secret_key.deep_view() == lookup(
        vars,
        "AWS_SECRET_ACCESS_KEY"@,
    )
}

/// The value of the first variable called `name`.
pub fn var(vars: &Vec<(String, String)>, name: &str) -> (value: Option<String>)
    ensures
        value.deep_view() == lookup(vars_view(vars@), name@),
{
    let mut i: usize = 0;
    assert(vars_view(vars@).skip(0) =~= vars_view(vars@));
    while i < vars.len()
        invariant
            i <= vars@.len(),
            lookup(vars_view(vars@), name@) == lookup(vars_view(vars@).skip(i as int), name@),
        decreases vars@.len() - i,
    {
        let ghost rest = vars_view(vars@).skip(i as int);
        assert(rest[0] == vars_view(vars@)[i as int]);
        assert(rest.drop_first() =~= vars_view(vars@).skip(i + 1));
        if str_eq(vars[i].0.as_str(), name) {
            return Some(vars[i].1.clone());
        }
        i += 1;
    }
    None
}

/// The value of `name`, or `default` where it is not set.
pub fn var_or(vars: &Vec<(String, String)>, name: &str, default: &str) -> (value: String)
    ensures
        value@ == text_or(vars_view(vars@), name@, default@),
{
    match var(vars, name) {
        Some(value) => value,
        None => String::from_str(default),
    }
}

/// The number that `name` is set to, or `default` where it is not set.
pub fn number_var(
    vars: &Vec<(String, String)>,
    name: &str,
    max: u64,
    default: u64,
) -> (value: Option<u64>)
    requires
        default <= max,
    ensures
        match value {
            Some(n) => number_or(vars_view(vars@), name@, max as nat, default as nat) == Some(
                n as nat,
            ) && n <= max,
            None => number_or(vars_view(vars@), name@, max as nat, default as nat) is None,
        },
{
    match var(vars, name) {
        Some(value) => parse_unsigned(value.as_str(), max),
        None => Some(default),
    }
}

/// The truth value that `name` is set to, or `default` where it is not set.
pub fn flag_var(vars: &Vec<(String, String)>, name: &str, default: bool) -> (value: Option<bool>)
    ensures
        value == flag_or(vars_view(vars@), name@, default),
{
    match var(vars, name) {
        Some(value) => {
            if str_eq(value.as_str(), "true") {
                Some(true)
            } else if str_eq(value.as_str(), "false") {
                Some(false)
            } else {
                None
            }
        },
        None => Some(default),
    }
}

/// Whether `c` is white space.
pub fn is_white_space(c: char) -> (yes: bool)
    ensures
        yes == is_space(c),
{
    let u: u32 = c as u32;
    (0x09 <= u && u <= 0x0d) || u == 0x20 || u == 0x85 || u == 0xa0 || u == 0x1680 || (0x2000 <= u
        && u <= 0x200a) || u == 0x2028 || u == 0x2029 || u == 0x202f || u == 0x205f || u == 0x3000
}

/// `s` without the white space at its start and at its end.
pub fn trim(s: &str) -> (t: String)
    ensures
        t@ == trimmed(s@),
{
    let v = chars_of(s);
    let mut from: usize = 0;
    assert(v@.skip(0) =~= v@);
    while from < v.len() && is_white_space(v[from])
        invariant
            from <= v@.len(),
            leading_spaces(v@) == from + leading_spaces(v@.skip(from as int)),
        decreases v@.len() - from,
    {
        proof {
            let rest = v@.skip(from as int);
            assert(rest[0] == v@[from as int]);
            assert(rest.drop_first() =~= v@.skip(from + 1));
        }
        from += 1;
    }
    proof {
        let rest = v@.skip(from as int);
        if from < v@.len() {
            assert(rest[0] == v@[from as int]);
        }
        assert(leading_spaces(rest) == 0);
    }
    let ghost rest = v@.skip(from as int);
    let mut to: usize = v.len();
    assert(rest.take(v@.len() - from) =~= rest);
    while to > from && is_white_space(v[to - 1])
        invariant
            from <= to <= v@.len(),
            rest == v@.skip(from as int),
            trailing_spaces(rest) == (v@.len() - to) + trailing_spaces(rest.take(to - from)),
        decreases to,
    {
        proof {
            let kept = rest.take(to - from);
            assert(kept.last() == v@[to - 1]);
            assert(kept.drop_last() =~= rest.take(to - 1 - from));
        }
        to -= 1;
    }
    proof {
        let kept = rest.take(to - from);
        if to > from {
            assert(kept.last() == v@[to - 1]);
        }
        assert(trailing_spaces(kept) == 0);
        assert(rest.take(rest.len() - trailing_spaces(rest)) =~= v@.subrange(
            from as int,
            to as int,
        ));
    }
    string_of(&v, from, to)
}

/// The allowed origins that the variables give.
pub fn cors_origins(vars: &Vec<(String, String)>) -> (origins: Vec<String>)
    ensures
        origins.deep_view() == origins_of(vars_view(vars@)),
{
    match var(vars, "CORS_ORIGINS") {
        Some(value) => {
            let pieces = split_at_char(value.as_str(), ',');
            let mut origins: Vec<String> = Vec::new();
            let mut i: usize = 0;
            while i < pieces.len()
                invariant
                    i <= pieces@.len(),
                    origins@.len() == i,
                    forall|j: int| 0 <= j < i ==> origins@[j]@ == trimmed(#[trigger] pieces@[j]@),
                decreases pieces@.len() - i,
            {
                origins.push(trim(pieces[i].as_str()));
                i += 1;
            }
            proof {
                let wanted = split(value@, ',').map_values(|piece: Seq<char>| trimmed(piece));
                assert(pieces.deep_view() == split(value@, ','));
                assert forall|j: int| 0 <= j < wanted.len() implies origins.deep_view()[j]
                    == wanted[j] by {
                    assert(pieces.deep_view()[j] == pieces@[j]@);
                    assert(origins.deep_view()[j] == origins@[j]@);
                }
                assert(origins.deep_view() =~= wanted);
            }
            origins
        },
        None => {
            let mut origins: Vec<String> = Vec::new();
            origins.push(String::from_str("*"));
            assert(origins.deep_view() =~= seq!["*"@]);
            origins
        },
    }
}

/// A configuration error with this message.
fn fault(message: &str) -> (e: AppError)
    ensures
        e@ == (AppErrorView { kind: ErrorKind::Configuration, message: message@ }),
{
    AppError::Configuration(String::from_str(message))
}

impl Config {
    /// Load configuration from environment variables.
    ///
    /// `DATABASE_URL` must be set; every other variable has a default.
    /// A variable that is set to something that is no number, or no truth
    /// value, where one is expected is an error, and the first such error
    /// is reported.
    pub fn from_env(vars: &Vec<(String, String)>) -> (config: AppResult<Config>)
        ensures
            match config {
                Ok(c) => config_fault(vars_view(vars@)) is None && config_reads(
                    vars_view(vars@),
                    c,
                ),
                Err(e) => config_fault(vars_view(vars@)) == Some(e.message_text()) && e.kind()
                    == ErrorKind::Configuration,
            },
    {
        let url = match var(vars, "DATABASE_URL") {
            Some(url) => url,
            None => return Err(fault("DATABASE_URL must be set")),
        };
        let jwt_secret = var_or(vars, "JWT_SECRET", "default_jwt_secret_change_me_in_production");
        let host = var_or(vars, "HOST", "0.0.0.0");
        let port = match number_var(vars, "PORT", 0xffff, 5000) {
            Some(port) => port as u16,
            None => return Err(fault("PORT must be a valid number")),
        };
        let max_connections = match number_var(vars, "DB_MAX_CONNECTIONS", 0xffff_ffff, 10) {
            Some(n) => n as u32,
            None => return Err(fault("DB_MAX_CONNECTIONS must be a valid number")),
        };
        let run_migrations = match flag_var(vars, "RUN_MIGRATIONS", true) {
            Some(flag) => flag,
            None => return Err(fault("RUN_MIGRATIONS must be a boolean")),
        };
        let jwt_expiration = match number_var(vars, "JWT_EXPIRATION", 0xffff_ffff_ffff_ffff, 3600) {
            Some(n) => n,
            None => return Err(fault("JWT_EXPIRATION must be a valid number")),
        };
        let refresh_expiration = match number_var(
            vars,
            "REFRESH_EXPIRATION",
            0xffff_ffff_ffff_ffff,
            604800,
        ) {
            Some(n) => n,
            None => return Err(fault("REFRESH_EXPIRATION must be a valid number")),
        };
        let password_hash_rounds = match number_var(vars, "PASSWORD_HASH_ROUNDS", 0xffff_ffff, 12) {
            Some(n) => n as u32,
            None => return Err(fault("PASSWORD_HASH_ROUNDS must be a valid number")),
        };
        let cors_origins = cors_origins(vars);
        let use_https = match flag_var(vars, "USE_HTTPS", false) {
            Some(flag) => flag,
            None => return Err(fault("USE_HTTPS must be a boolean")),
        };
        Ok(
            Config {
                database: DatabaseConfig { url, max_connections, run_migrations },
                server: ServerConfig { host, port, cors_origins, use_https },
                security: SecurityConfig {
                    jwt_secret,
                    jwt_expiration,
                    refresh_expiration,
                    password_hash_rounds,
                },
                services: ServicesConfig {
                    service_urls: ServiceUrls {
                        api_gateway: var_or(vars, "API_GATEWAY_URL", "http://localhost:5002"),
                        property_service: var_or(
                            vars,
                            "PROPERTY_SERVICE_URL",
                            "http://localhost:5003",
                        ),
                        user_service: var_or(vars, "USER_SERVICE_URL", "http://localhost:5004"),
                        report_service: var_or(vars, "REPORT_SERVICE_URL", "http://localhost:5007"),
                        form_service: var_or(vars, "FORM_SERVICE_URL", "http://localhost:5005"),
                        analysis_service: var_or(
                            vars,
                            "ANALYSIS_SERVICE_URL",
                            "http://localhost:5006",
                        ),
                    },
                    api_keys: ApiKeys {
                        google_maps: var(vars, "GOOGLE_MAPS_API_KEY"),
                        zillow: var(vars, "ZILLOW_API_KEY"),
                        aws_access_key: var(vars, "AWS_ACCESS_KEY_ID"),
                        aws_secret_key: var(vars, "AWS_SECRET_ACCESS_KEY"),
                    },
                },
            },
        )
    }
}

} // verus!
