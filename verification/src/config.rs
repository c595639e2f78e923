//! Process configuration.
//!
//! Reading configuration files and the environment is the shell's job;
//! the shell hands this module the key/value pairs it gathered, in
//! precedence order (later pairs override earlier ones), and this module
//! computes the effective configuration: defaults, overrides, and the
//! one validation that is fatal at startup — an operating mode that is
//! neither `paper` nor `live`.

use vstd::prelude::*;
use vstd::string::StrSliceExecFns;

verus! {

/// Which database engine a connection string names.
#[derive(Clone, Copy, Debug, PartialEq, Eq, Structural)]
pub enum DatabaseKind {
    Postgres,
    Sqlite,
}

pub open spec fn has_prefix(s: Seq<char>, p: Seq<char>) -> bool {
    p.len() <= s.len() && forall|i: int| 0 <= i < p.len() ==> s[i] == p[i]
}

/// The engine a connection string names, by its scheme; `None` is the
/// fatal "unsupported database url" startup failure.
pub open spec fn spec_database_kind(url: Seq<char>) -> Option<DatabaseKind> {
    if has_prefix(url, "postgres://"@) || has_prefix(url, "postgresql://"@) {
        Option::Some(DatabaseKind::Postgres)
    } else if has_prefix(url, "sqlite:"@) {
        Option::Some(DatabaseKind::Sqlite)
    } else {
        Option::None
    }
}

fn str_has_prefix(s: &str, p: &str) -> (b: bool)
    ensures
        b == has_prefix(s@, p@),
{
    let pl = p.unicode_len();
    let sl = s.unicode_len();
    if pl > sl {
        return false;
    }
    let mut i: usize = 0;
    while i < pl
        invariant
            i <= pl,
            pl == p@.len(),
            sl == s@.len(),
            pl <= sl,
            forall|j: int| 0 <= j < i ==> s@[j] == p@[j],
        decreases pl - i,
    {
        if !(s.get_char(i) == p.get_char(i)) {
            return false;
        }
        i = i + 1;
    }
    true
}

/// Classify a connection string by its scheme, exactly as the shell's
/// connector dispatches on it.
pub fn classify_database_url(url: &str) -> (r: Option<DatabaseKind>)
    ensures
        r == spec_database_kind(url@),
{
    if str_has_prefix(url, "postgres://") || str_has_prefix(url, "postgresql://") {
        Option::Some(DatabaseKind::Postgres)
    } else if str_has_prefix(url, "sqlite:") {
        Option::Some(DatabaseKind::Sqlite)
    } else {
        Option::None
    }
}

/// Why startup must fail before any loop runs.
#[derive(Clone, Copy, Debug, PartialEq, Eq, Structural)]
pub enum ConfigError {
    /// The effective mode is neither `paper` nor `live`.
    InvalidMode,
}

/// The configuration bundle handed to the orchestrator at startup.
#[derive(Debug)]
pub struct AppConfig {
    /// `paper` or `live`.
    pub mode: String,
    /// Where the portfolio store lives.
    pub database_url: String,
    pub exchange_api_key: Option<String>,
    pub exchange_api_secret: Option<String>,
}

pub open spec fn valid_mode(mode: Seq<char>) -> bool {
    mode == "paper"@ || mode == "live"@
}

/// The value the last pair with key `key` sets, or `dflt` if no pair has
/// that key.
pub open spec fn effective(sources: Seq<(String, String)>, key: Seq<char>, dflt: Seq<char>) -> Seq<
    char,
>
    decreases sources.len(),
{
    if sources.len() == 0 {
        dflt
    } else if sources.last().0@ == key {
        sources.last().1@
    } else {
        effective(sources.drop_last(), key, dflt)
    }
}

/// As `effective`, for a key with no default.
pub open spec fn effective_opt(sources: Seq<(String, String)>, key: Seq<char>) -> Option<
    Seq<char>,
>
    decreases sources.len(),
{
    if sources.len() == 0 {
        Option::None
    } else if sources.last().0@ == key {
        Option::Some(sources.last().1@)
    } else {
        effective_opt(sources.drop_last(), key)
    }
}

/// Scan for the last pair carrying `key`; the default is applied by the
/// caller.
fn scan(sources: &Vec<(String, String)>, key: &String) -> (r: Option<String>)
    ensures
        match r {
            Option::Some(v) => effective_opt(sources@, key@) == Option::Some(v@),
            Option::None => effective_opt(sources@, key@) is None,
        },
{
    let n = sources.len();
    let mut found: Option<String> = Option::None;
    let mut i: usize = 0;
    while i < n
        invariant
            i <= n,
            n == sources@.len(),
            match found {
                Option::Some(v) => effective_opt(sources@.take(i as int), key@) == Option::Some(
                    v@,
                ),
                Option::None => effective_opt(sources@.take(i as int), key@) is None,
            },
        decreases n - i,
    {
        proof {
            assert(sources@.take(i + 1).drop_last() =~= sources@.take(i as int));
            assert(sources@.take(i + 1).last() == sources@[i as int]);
        }
        if sources[i].0 == *key {
            found = Option::Some(sources[i].1.clone());
        }
        i = i + 1;
    }
    proof {
        assert(sources@.take(n as int) =~= sources@);
    }
    found
}

impl Default for AppConfig {
    /// Paper trading against a local store, no credentials.
    fn default() -> (r: AppConfig)
        ensures
            r.spec_default(),
    {
        AppConfig {
            mode: "paper".to_owned(),
            database_url: "sqlite://ai_trader.db".to_owned(),
            exchange_api_key: Option::None,
            exchange_api_secret: Option::None,
        }
    }
}

impl AppConfig {
    /// The defaults: paper trading against a local store, no credentials.
    pub open spec fn spec_default(self) -> bool {
        &&& self.mode@ == "paper"@
        &&& self.database_url@ == "sqlite://ai_trader.db"@
        &&& self.exchange_api_key is None
        &&& self.exchange_api_secret is None
    }

    /// Compute the effective configuration from gathered key/value pairs,
    /// later pairs overriding earlier ones and the defaults; fails if and
    /// only if the effective mode is invalid, which the caller treats as
    /// fatal.
    pub fn load(sources: &Vec<(String, String)>) -> (r: Result<AppConfig, ConfigError>)
        ensures
            r is Ok <==> valid_mode(effective(sources@, "mode"@, "paper"@)),
            match r {
                Result::Ok(cfg) => {
                    &&& cfg.mode@ == effective(sources@, "mode"@, "paper"@)
                    &&& cfg.database_url@ == effective(
                        sources@,
                        "database_url"@,
                        "sqlite://ai_trader.db"@,
                    )
                    &&& match cfg.exchange_api_key {
                        Option::Some(v) => effective_opt(sources@, "exchange_api_key"@)
                            == Option::Some(v@),
                        Option::None => effective_opt(sources@, "exchange_api_key"@) is None,
                    }
                    &&& match cfg.exchange_api_secret {
                        Option::Some(v) => effective_opt(sources@, "exchange_api_secret"@)
                            == Option::Some(v@),
                        Option::None => effective_opt(sources@, "exchange_api_secret"@) is None,
                    }
                },
                Result::Err(e) => e == ConfigError::InvalidMode,
            },
    {
        let mode_key: String = "mode".to_owned();
        let mode_default: String = "paper".to_owned();
        let url_key: String = "database_url".to_owned();
        let url_default: String = "sqlite://ai_trader.db".to_owned();
        let api_key_key: String = "exchange_api_key".to_owned();
        let api_secret_key: String = "exchange_api_secret".to_owned();

        let mode = match scan(sources, &mode_key) {
            Option::Some(v) => v,
            Option::None => mode_default,
        };
        proof {
            lemma_effective_agrees(sources@, "mode"@, "paper"@);
        }
        let live: String = "live".to_owned();
        let paper: String = "paper".to_owned();
        if !(mode == paper) && !(mode == live) {
            return Result::Err(ConfigError::InvalidMode);
        }
        let database_url = match scan(sources, &url_key) {
            Option::Some(v) => v,
            Option::None => url_default,
        };
        proof {
            lemma_effective_agrees(sources@, "database_url"@, "sqlite://ai_trader.db"@);
        }
        let exchange_api_key = scan(sources, &api_key_key);
        let exchange_api_secret = scan(sources, &api_secret_key);
        Result::Ok(AppConfig { mode, database_url, exchange_api_key, exchange_api_secret })
    }
}

/// `effective` is `effective_opt` with the default filled in.
proof fn lemma_effective_agrees(sources: Seq<(String, String)>, key: Seq<char>, dflt: Seq<char>)
    ensures
        effective(sources, key, dflt) == match effective_opt(sources, key) {
            Option::Some(v) => v,
            Option::None => dflt,
        },
    decreases sources.len(),
{
    if sources.len() > 0 && sources.last().0@ != key {
        lemma_effective_agrees(sources.drop_last(), key, dflt);
    }
}

} // verus!
