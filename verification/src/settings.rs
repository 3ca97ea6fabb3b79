//! The typed settings that the service is started with.

use crate::text::{
    lookup, pair_views, parse_flag, parse_u64, parse_usize, spec_lookup, spec_parse_flag,
    spec_parse_u64, spec_parse_usize,
};
use vstd::prelude::*;

verus! {

/// The most connections that a warm-up may be asked to open.
pub const WARM_POOL_LIMIT: usize = 128;

/// Settings of the connection pool. All times are in seconds.
#[derive(Debug, Clone, PartialEq, Eq)]
pub struct PgSettings {
    pub url: String,
    pub conn_timeout: u64,
    pub max_pool_size: usize,
    pub wait_timeout: u64,
    pub new_connection_timeout: u64,
    pub recycle_timeout: u64,
    pub warm_pool: bool,
    pub warm_pool_size: usize,
}

/// Settings of the session cache: how many entries it may hold, and for how
/// many seconds an entry lives.
#[derive(Debug, Clone, PartialEq, Eq)]
pub struct MokaSettings {
    pub cache_size: u64,
    pub expiration_time: u64,
}

/// All the settings of the service.
#[derive(Debug, Clone, PartialEq, Eq)]
pub struct AppSettings {
    pub pg_settings: PgSettings,
    pub cache_settings: MokaSettings,
    pub enable_logging: bool,
}

/// Why the environment gives no settings: the variable that is missing or
/// not of its kind, or the rule that the values break.
#[derive(Debug, Clone, Copy, PartialEq, Eq, Structural)]
pub enum SettingsError {
    /// `ENABLE_LOGGING` is not set to `true` or `false`.
    EnableLogging,
    /// `POSTGRES_DB_URL` is not set.
    PostgresUrl,
    /// `PG_CONN_TIMEOUT` is not set to a number.
    ConnTimeout,
    /// `PG_POOL_MAX_SIZE` is not set to a number.
    PoolMaxSize,
    /// `PG_POOL_WAIT_TIMEOUT` is not set to a number.
    PoolWaitTimeout,
    /// `PG_POOL_NEW_CONNECTION_TIMEOUT` is not set to a number.
    PoolNewConnectionTimeout,
    /// `PG_POOL_RECYCLE_TIMEOUT` is not set to a number.
    PoolRecycleTimeout,
    /// `PG_POOL_WARM_POOL` is not set to `true` or `false`.
    WarmPool,
    /// `PG_POOL_WARM_POOL_SIZE` is not set to a number.
    WarmPoolSize,
    /// The warm-up asks for more connections than the pool may hold.
    WarmPoolAboveMax,
    /// The warm-up is switched on and asks for more than `WARM_POOL_LIMIT`.
    WarmPoolAboveLimit,
    /// `CACHE_SIZE` is not set to a number.
    CacheSize,
    /// `CACHE_EXPIRATION_TIME` is not set to a number.
    CacheExpirationTime,
}

/// The number that the variable `name` is set to.
pub open spec fn number_var(vars: Seq<(Seq<char>, Seq<char>)>, name: Seq<char>) -> Option<u64> {
    match spec_lookup(vars, name) {
        Some(text) => spec_parse_u64(text),
        None => None,
    }
}

/// The size that the variable `name` is set to.
pub open spec fn size_var(vars: Seq<(Seq<char>, Seq<char>)>, name: Seq<char>) -> Option<usize> {
    match spec_lookup(vars, name) {
        Some(text) => spec_parse_usize(text),
        None => None,
    }
}

/// The switch that the variable `name` is set to.
pub open spec fn flag_var(vars: Seq<(Seq<char>, Seq<char>)>, name: Seq<char>) -> Option<bool> {
    match spec_lookup(vars, name) {
        Some(text) => spec_parse_flag(text),
        None => None,
    }
}

fn read_number(vars: &Vec<(String, String)>, name: &str) -> (number: Option<u64>)
    ensures
        number == number_var(pair_views(vars@), name@),
{
    match lookup(vars, name) {
        Some(text) => parse_u64(text.as_str()),
        None => None,
    }
}

fn read_size(vars: &Vec<(String, String)>, name: &str) -> (size: Option<usize>)
    ensures
        size == size_var(pair_views(vars@), name@),
{
    match lookup(vars, name) {
        Some(text) => parse_usize(text.as_str()),
        None => None,
    }
}

fn read_flag(vars: &Vec<(String, String)>, name: &str) -> (flag: Option<bool>)
    ensures
        flag == flag_var(pair_views(vars@), name@),
{
    match lookup(vars, name) {
        Some(text) => parse_flag(text.as_str()),
        None => None,
    }
}

/// The first fault of the pool's variables, in the order in which they are
/// read, or `None` where they give settings.
pub open spec fn pg_fault(vars: Seq<(Seq<char>, Seq<char>)>) -> Option<SettingsError> {
    if spec_lookup(vars, "POSTGRES_DB_URL"@) is None {
        Some(SettingsError::PostgresUrl)
    } else if number_var(vars, "PG_CONN_TIMEOUT"@) is None {
        Some(SettingsError::ConnTimeout)
    } else if size_var(vars, "PG_POOL_MAX_SIZE"@) is None {
        Some(SettingsError::PoolMaxSize)
    } else if number_var(vars, "PG_POOL_WAIT_TIMEOUT"@) is None {
        Some(SettingsError::PoolWaitTimeout)
    } else if number_var(vars, "PG_POOL_NEW_CONNECTION_TIMEOUT"@) is None {
        Some(SettingsError::PoolNewConnectionTimeout)
    } else if number_var(vars, "PG_POOL_RECYCLE_TIMEOUT"@) is None {
        Some(SettingsError::PoolRecycleTimeout)
    } else if flag_var(vars, "PG_POOL_WARM_POOL"@) is None {
        Some(SettingsError::WarmPool)
    } else if size_var(vars, "PG_POOL_WARM_POOL_SIZE"@) is None {
        Some(SettingsError::WarmPoolSize)
    } else if size_var(vars, "PG_POOL_WARM_POOL_SIZE"@).unwrap() > size_var(
        vars,
        "PG_POOL_MAX_SIZE"@,
    ).unwrap() {
        Some(SettingsError::WarmPoolAboveMax)
    } else if flag_var(vars, "PG_POOL_WARM_POOL"@).unwrap() && size_var(
        vars,
        "PG_POOL_WARM_POOL_SIZE"@,
    ).unwrap() > WARM_POOL_LIMIT {
        Some(SettingsError::WarmPoolAboveLimit)
    } else {
        None
    }
}

/// The first fault of the cache's variables, or `None`.
pub open spec fn cache_fault(vars: Seq<(Seq<char>, Seq<char>)>) -> Option<SettingsError> {
    if number_var(vars, "CACHE_SIZE"@) is None {
        Some(SettingsError::CacheSize)
    } else if number_var(vars, "CACHE_EXPIRATION_TIME"@) is None {
        Some(SettingsError::CacheExpirationTime)
    } else {
        None
    }
}

/// The first fault of all the variables, or `None`.
pub open spec fn app_fault(vars: Seq<(Seq<char>, Seq<char>)>) -> Option<SettingsError> {
    if flag_var(vars, "ENABLE_LOGGING"@) is None {
        Some(SettingsError::EnableLogging)
    } else if pg_fault(vars) is Some {
        pg_fault(vars)
    } else {
        cache_fault(vars)
    }
}

impl PgSettings {
    /// Whether these are the settings that the variables give.
    pub open spec fn read_from(&self, vars: Seq<(Seq<char>, Seq<char>)>) -> bool {
        &&& Some(self.url@) == spec_lookup(vars, "POSTGRES_DB_URL"@)
        &&& Some(self.conn_timeout) == number_var(vars, "PG_CONN_TIMEOUT"@)
        &&& Some(self.max_pool_size) == size_var(vars, "PG_POOL_MAX_SIZE"@)
        &&& Some(self.wait_timeout) == number_var(vars, "PG_POOL_WAIT_TIMEOUT"@)
        &&& Some(self.new_connection_timeout) == number_var(
            vars,
            "PG_POOL_NEW_CONNECTION_TIMEOUT"@,
        )
        &&& Some(self.recycle_timeout) == number_var(vars, "PG_POOL_RECYCLE_TIMEOUT"@)
        &&& Some(self.warm_pool) == flag_var(vars, "PG_POOL_WARM_POOL"@)
        &&& Some(self.warm_pool_size) == size_var(vars, "PG_POOL_WARM_POOL_SIZE"@)
    }

    /// The pool's settings from the variables of the environment, given as
    /// pairs of name and value. They come out well-formed, or not at all.
    pub fn from_env(vars: &Vec<(String, String)>) -> (settings: Result<PgSettings, SettingsError>)
        ensures
            match settings {
                Ok(pg) => pg_fault(pair_views(vars@)) is None && pg.read_from(pair_views(vars@))
                    && pg.well_formed(),
                Err(fault) => pg_fault(pair_views(vars@)) == Some(fault),
            },
    {
        let url = match lookup(vars, "POSTGRES_DB_URL") {
            Some(url) => url,
            None => { return Err(SettingsError::PostgresUrl); },
        };
        let conn_timeout = match read_number(vars, "PG_CONN_TIMEOUT") {
            Some(n) => n,
            None => { return Err(SettingsError::ConnTimeout); },
        };
        let max_pool_size = match read_size(vars, "PG_POOL_MAX_SIZE") {
            Some(n) => n,
            None => { return Err(SettingsError::PoolMaxSize); },
        };
        let wait_timeout = match read_number(vars, "PG_POOL_WAIT_TIMEOUT") {
            Some(n) => n,
            None => { return Err(SettingsError::PoolWaitTimeout); },
        };
        let new_connection_timeout = match read_number(vars, "PG_POOL_NEW_CONNECTION_TIMEOUT") {
            Some(n) => n,
            None => { return Err(SettingsError::PoolNewConnectionTimeout); },
        };
        let recycle_timeout = match read_number(vars, "PG_POOL_RECYCLE_TIMEOUT") {
            Some(n) => n,
            None => { return Err(SettingsError::PoolRecycleTimeout); },
        };
        let warm_pool = match read_flag(vars, "PG_POOL_WARM_POOL") {
            Some(flag) => flag,
            None => { return Err(SettingsError::WarmPool); },
        };
        let warm_pool_size = match read_size(vars, "PG_POOL_WARM_POOL_SIZE") {
            Some(n) => n,
            None => { return Err(SettingsError::WarmPoolSize); },
        };
        if warm_pool_size > max_pool_size {
            return Err(SettingsError::WarmPoolAboveMax);
        }
        if warm_pool && warm_pool_size > WARM_POOL_LIMIT {
            return Err(SettingsError::WarmPoolAboveLimit);
        }
        Ok(
            PgSettings {
                url,
                conn_timeout,
                max_pool_size,
                wait_timeout,
                new_connection_timeout,
                recycle_timeout,
                warm_pool,
                warm_pool_size,
            },
        )
    }
}

impl MokaSettings {
    /// The cache's settings from the variables of the environment.
    pub fn from_env(vars: &Vec<(String, String)>) -> (settings: Result<
        MokaSettings,
        SettingsError,
    >)
        ensures
            match settings {
                Ok(cache) => cache_fault(pair_views(vars@)) is None && Some(cache.cache_size)
                    == number_var(pair_views(vars@), "CACHE_SIZE"@) && Some(cache.expiration_time)
                    == number_var(pair_views(vars@), "CACHE_EXPIRATION_TIME"@),
                Err(fault) => cache_fault(pair_views(vars@)) == Some(fault),
            },
    {
        let cache_size = match read_number(vars, "CACHE_SIZE") {
            Some(n) => n,
            None => { return Err(SettingsError::CacheSize); },
        };
        let expiration_time = match read_number(vars, "CACHE_EXPIRATION_TIME") {
            Some(n) => n,
            None => { return Err(SettingsError::CacheExpirationTime); },
        };
        Ok(MokaSettings { cache_size, expiration_time })
    }
}

impl AppSettings {
    /// All settings from the variables of the environment: the first fault
    /// in the order of reading, or settings that hold what the variables say.
    pub fn from_env(vars: &Vec<(String, String)>) -> (settings: Result<AppSettings, SettingsError>)
        ensures
            match settings {
                Ok(app) => {
                    &&& app_fault(pair_views(vars@)) is None
                    &&& Some(app.enable_logging) == flag_var(pair_views(vars@), "ENABLE_LOGGING"@)
                    &&& app.pg_settings.read_from(pair_views(vars@))
                    &&& app.pg_settings.well_formed()
                    &&& Some(app.cache_settings.cache_size) == number_var(
                        pair_views(vars@),
                        "CACHE_SIZE"@,
                    )
                    &&& Some(app.cache_settings.expiration_time) == number_var(
                        pair_views(vars@),
                        "CACHE_EXPIRATION_TIME"@,
                    )
                },
                Err(fault) => app_fault(pair_views(vars@)) == Some(fault),
            },
    {
        let enable_logging = match read_flag(vars, "ENABLE_LOGGING") {
            Some(flag) => flag,
            None => { return Err(SettingsError::EnableLogging); },
        };
        let pg_settings = match PgSettings::from_env(vars) {
            Ok(pg) => pg,
            Err(fault) => { return Err(fault); },
        };
        let cache_settings = match MokaSettings::from_env(vars) {
            Ok(cache) => cache,
            Err(fault) => { return Err(fault); },
        };
        Ok(AppSettings { pg_settings, cache_settings, enable_logging })
    }
}

impl PgSettings {
    /// The invariant of pool settings: a warm-up never asks for more
    /// connections than the pool may hold, nor, where it is switched on, for
    /// more than `WARM_POOL_LIMIT`.
    pub open spec fn well_formed(&self) -> bool {
        &&& self.warm_pool_size <= self.max_pool_size
        &&& self.warm_pool ==> self.warm_pool_size <= WARM_POOL_LIMIT
    }
}

} // verus!
