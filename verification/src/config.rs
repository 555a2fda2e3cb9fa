//! Service settings read from the process environment.

use vstd::prelude::*;

use crate::decimal::{lemma_literal_value_nonneg, parse_failure_text, parse_outcome, parse_unsigned, u64_from_text, value_within, ParseFailure};
use crate::text::{split_pieces, split_text, views};

verus! {

/// The settings of the web service.
#[derive(Debug, Clone)]
pub struct Config {
    pub max_file_size_mb: u64,
    pub max_concurrent_jobs: usize,
    pub temp_file_ttl_hours: u64,
    pub rate_limit_requests: u64,
    pub rate_limit_duration_secs: u64,
    pub redis_url: String,
    pub jwt_secret: String,
    pub allowed_origins: Vec<String>,
    pub upload_dir: String,
    pub processed_dir: String,
}

/// The raw values of the environment variables that configure the service;
/// `None` where a variable is unset or does not hold valid Unicode.
#[derive(Debug, Clone)]
pub struct EnvValues {
    pub max_file_size_mb: Option<String>,
    pub max_concurrent_jobs: Option<String>,
    pub temp_file_ttl_hours: Option<String>,
    pub rate_limit_requests: Option<String>,
    pub rate_limit_duration_secs: Option<String>,
    pub redis_url: Option<String>,
    pub jwt_secret: Option<String>,
    pub allowed_origins: Option<String>,
    pub upload_dir: Option<String>,
    pub processed_dir: Option<String>,
}

/// The numeric settings, in the order in which they are read.
#[derive(Debug, Clone, Copy, PartialEq, Eq, Structural)]
pub enum NumericSetting {
    MaxFileSizeMb,
    MaxConcurrentJobs,
    TempFileTtlHours,
    RateLimitRequests,
    RateLimitDurationSecs,
}

/// A numeric setting whose variable holds something other than a whole
/// number in range: which setting, the text it held, and why parsing it
/// failed.
#[derive(Debug, Clone)]
pub struct ConfigError {
    pub setting: NumericSetting,
    pub value: String,
    pub failure: ParseFailure,
}

pub open spec fn default_max_file_size_mb() -> u64 { 500 }
pub open spec fn default_max_concurrent_jobs() -> usize { 4 }
pub open spec fn default_temp_file_ttl_hours() -> u64 { 24 }
pub open spec fn default_rate_limit_requests() -> u64 { 100 }
pub open spec fn default_rate_limit_duration_secs() -> u64 { 60 }

/// A `u64` setting: its default when unset, else the parsed value.
pub open spec fn u64_setting(value: Option<String>, default: u64) -> Option<u64> {
    match value {
        Some(t) => u64_from_text(t@),
        None => Some(default),
    }
}

/// What parsing `s` as a `usize` gives.
pub open spec fn usize_from_text(s: Seq<char>) -> Option<usize> {
    match value_within(s, usize::MAX as int) {
        Some(v) => Some(v as usize),
        None => None,
    }
}

/// The largest value of the type a numeric setting is read as.
pub open spec fn setting_bound(setting: NumericSetting) -> int {
    match setting {
        NumericSetting::MaxConcurrentJobs => usize::MAX as int,
        _ => u64::MAX as int,
    }
}

/// A `usize` setting: its default when unset, else the parsed value.
pub open spec fn usize_setting(value: Option<String>, default: usize) -> Option<usize> {
    match value {
        Some(t) => usize_from_text(t@),
        None => Some(default),
    }
}

/// A text setting: the variable's value, or the default when unset.
pub open spec fn text_setting(value: Option<String>, default: Seq<char>) -> Seq<char> {
    match value {
        Some(t) => t@,
        None => default,
    }
}

/// The raw value of the variable behind a numeric setting.
pub open spec fn env_value_of(env: EnvValues, setting: NumericSetting) -> Option<String> {
    match setting {
        NumericSetting::MaxFileSizeMb => env.max_file_size_mb,
        NumericSetting::MaxConcurrentJobs => env.max_concurrent_jobs,
        NumericSetting::TempFileTtlHours => env.temp_file_ttl_hours,
        NumericSetting::RateLimitRequests => env.rate_limit_requests,
        NumericSetting::RateLimitDurationSecs => env.rate_limit_duration_secs,
    }
}

/// Whether a numeric setting can be read from `env`.
pub open spec fn setting_valid(env: EnvValues, setting: NumericSetting) -> bool {
    match setting {
        NumericSetting::MaxFileSizeMb =>
            u64_setting(env.max_file_size_mb, default_max_file_size_mb()) is Some,
        NumericSetting::MaxConcurrentJobs =>
            usize_setting(env.max_concurrent_jobs, default_max_concurrent_jobs()) is Some,
        NumericSetting::TempFileTtlHours =>
            u64_setting(env.temp_file_ttl_hours, default_temp_file_ttl_hours()) is Some,
        NumericSetting::RateLimitRequests =>
            u64_setting(env.rate_limit_requests, default_rate_limit_requests()) is Some,
        NumericSetting::RateLimitDurationSecs =>
            u64_setting(env.rate_limit_duration_secs, default_rate_limit_duration_secs()) is Some,
    }
}

/// The first numeric setting, in reading order, that cannot be read.
pub open spec fn first_invalid_setting(env: EnvValues) -> Option<NumericSetting> {
    if !setting_valid(env, NumericSetting::MaxFileSizeMb) {
        Some(NumericSetting::MaxFileSizeMb)
    } else if !setting_valid(env, NumericSetting::MaxConcurrentJobs) {
        Some(NumericSetting::MaxConcurrentJobs)
    } else if !setting_valid(env, NumericSetting::TempFileTtlHours) {
        Some(NumericSetting::TempFileTtlHours)
    } else if !setting_valid(env, NumericSetting::RateLimitRequests) {
        Some(NumericSetting::RateLimitRequests)
    } else if !setting_valid(env, NumericSetting::RateLimitDurationSecs) {
        Some(NumericSetting::RateLimitDurationSecs)
    } else {
        None
    }
}

/// The configuration that `env` describes, once every numeric setting reads.
pub open spec fn config_matches(c: Config, env: EnvValues) -> bool {
    &&& Some(c.max_file_size_mb) == u64_setting(env.max_file_size_mb, default_max_file_size_mb())
    &&& Some(c.max_concurrent_jobs) == usize_setting(env.max_concurrent_jobs, default_max_concurrent_jobs())
    &&& Some(c.temp_file_ttl_hours) == u64_setting(env.temp_file_ttl_hours, default_temp_file_ttl_hours())
    &&& Some(c.rate_limit_requests) == u64_setting(env.rate_limit_requests, default_rate_limit_requests())
    &&& Some(c.rate_limit_duration_secs) == u64_setting(env.rate_limit_duration_secs, default_rate_limit_duration_secs())
    &&& c.redis_url@ == text_setting(env.redis_url, "redis://127.0.0.1:6379"@)
    &&& c.jwt_secret@ == text_setting(env.jwt_secret, "change_this_in_production"@)
    &&& views(c.allowed_origins@) == split_pieces(text_setting(env.allowed_origins, "http://localhost:3000"@), ',')
    &&& c.upload_dir@ == text_setting(env.upload_dir, "./uploads"@)
    &&& c.processed_dir@ == text_setting(env.processed_dir, "./processed"@)
}

fn read_u64(value: &Option<String>, default: u64) -> (res: Result<u64, ParseFailure>)
    ensures
        match res {
            Ok(v) => u64_setting(*value, default) == Some(v),
            Err(f) => u64_setting(*value, default) is None
                && (*value matches Some(t) && parse_outcome(t@, u64::MAX as int) == Err::<int, ParseFailure>(f)),
        },
{
    match value {
        Some(t) => parse_unsigned(t.as_str(), u64::MAX),
        None => Ok(default),
    }
}

fn read_usize(value: &Option<String>, default: usize) -> (res: Result<usize, ParseFailure>)
    ensures
        match res {
            Ok(v) => usize_setting(*value, default) == Some(v),
            Err(f) => usize_setting(*value, default) is None
                && (*value matches Some(t) && parse_outcome(t@, usize::MAX as int) == Err::<int, ParseFailure>(f)),
        },
{
    match value {
        Some(t) => {
            match parse_unsigned(t.as_str(), usize::MAX as u64) {
                Ok(v) => Ok(v as usize),
                Err(f) => Err(f),
            }
        },
        None => Ok(default),
    }
}

fn read_text(value: &Option<String>, default: &str) -> (res: String)
    ensures
        res@ == text_setting(*value, default@),
{
    match value {
        Some(t) => t.clone(),
        None => default.to_owned(),
    }
}

fn invalid(env: &EnvValues, setting: NumericSetting, failure: ParseFailure) -> (res: ConfigError)
    ensures
        res.setting == setting,
        res.failure == failure,
        res.value@ == match env_value_of(*env, setting) { Some(t) => t@, None => Seq::<char>::empty() },
{
    let value = match setting {
        NumericSetting::MaxFileSizeMb => &env.max_file_size_mb,
        NumericSetting::MaxConcurrentJobs => &env.max_concurrent_jobs,
        NumericSetting::TempFileTtlHours => &env.temp_file_ttl_hours,
        NumericSetting::RateLimitRequests => &env.rate_limit_requests,
        NumericSetting::RateLimitDurationSecs => &env.rate_limit_duration_secs,
    };
    let text = match value {
        Some(t) => t.clone(),
        None => String::new(),
    };
    ConfigError { setting, value: text, failure }
}

impl Config {
    /// Builds the configuration from the environment's values: each unset
    /// variable takes its default, the numeric ones are read as whole
    /// numbers, and `ALLOWED_ORIGINS` is split at every comma.
    pub fn from_env(env: &EnvValues) -> (res: Result<Config, ConfigError>)
        ensures
            res is Ok <==> first_invalid_setting(*env) is None,
            res matches Ok(c) ==> config_matches(c, *env),
            res matches Err(e) ==> {
                &&& first_invalid_setting(*env) == Some(e.setting)
                &&& env_value_of(*env, e.setting) matches Some(t) && e.value@ == t@
                    && parse_outcome(t@, setting_bound(e.setting)) == Err::<int, ParseFailure>(e.failure)
            },
    {
        let max_file_size_mb = match read_u64(&env.max_file_size_mb, 500) {
            Ok(v) => v,
            Err(f) => return Err(invalid(env, NumericSetting::MaxFileSizeMb, f)),
        };
        let max_concurrent_jobs = match read_usize(&env.max_concurrent_jobs, 4) {
            Ok(v) => v,
            Err(f) => return Err(invalid(env, NumericSetting::MaxConcurrentJobs, f)),
        };
        let temp_file_ttl_hours = match read_u64(&env.temp_file_ttl_hours, 24) {
            Ok(v) => v,
            Err(f) => return Err(invalid(env, NumericSetting::TempFileTtlHours, f)),
        };
        let rate_limit_requests = match read_u64(&env.rate_limit_requests, 100) {
            Ok(v) => v,
            Err(f) => return Err(invalid(env, NumericSetting::RateLimitRequests, f)),
        };
        let rate_limit_duration_secs = match read_u64(&env.rate_limit_duration_secs, 60) {
            Ok(v) => v,
            Err(f) => return Err(invalid(env, NumericSetting::RateLimitDurationSecs, f)),
        };
        let redis_url = read_text(&env.redis_url, "redis://127.0.0.1:6379");
        let jwt_secret = read_text(&env.jwt_secret, "change_this_in_production");
        let origins = read_text(&env.allowed_origins, "http://localhost:3000");
        let allowed_origins = split_text(origins.as_str(), ',');
        let upload_dir = read_text(&env.upload_dir, "./uploads");
        let processed_dir = read_text(&env.processed_dir, "./processed");
        Ok(Config {
            max_file_size_mb,
            max_concurrent_jobs,
            temp_file_ttl_hours,
            rate_limit_requests,
            rate_limit_duration_secs,
            redis_url,
            jwt_secret,
            allowed_origins,
            upload_dir,
            processed_dir,
        })
    }

    /// The largest request body the server accepts, in bytes: the size limit
    /// in mebibytes times 1024 * 1024, or `None` where that product does not
    /// fit in a `u64`.
    pub fn max_upload_bytes(&self) -> (res: Option<u64>)
        ensures
            res == (if self.max_file_size_mb * 1048576 <= u64::MAX {
                Some((self.max_file_size_mb * 1048576) as u64)
            } else {
                None
            }),
    {
        if self.max_file_size_mb <= u64::MAX / 1048576 {
            Some(self.max_file_size_mb * 1048576)
        } else {
            None
        }
    }
}

impl NumericSetting {
    /// The environment variable that holds this setting.
    pub fn variable_name(&self) -> (res: &'static str)
        ensures
            res@ == numeric_setting_variable(*self),
    {
        match self {
            NumericSetting::MaxFileSizeMb => "MAX_FILE_SIZE_MB",
            NumericSetting::MaxConcurrentJobs => "MAX_CONCURRENT_JOBS",
            NumericSetting::TempFileTtlHours => "TEMP_FILE_TTL_HOURS",
            NumericSetting::RateLimitRequests => "RATE_LIMIT_REQUESTS",
            NumericSetting::RateLimitDurationSecs => "RATE_LIMIT_DURATION_SECS",
        }
    }
}

/// The environment variable's name for a numeric setting.
pub open spec fn numeric_setting_variable(s: NumericSetting) -> Seq<char> {
    match s {
        NumericSetting::MaxFileSizeMb => "MAX_FILE_SIZE_MB"@,
        NumericSetting::MaxConcurrentJobs => "MAX_CONCURRENT_JOBS"@,
        NumericSetting::TempFileTtlHours => "TEMP_FILE_TTL_HOURS"@,
        NumericSetting::RateLimitRequests => "RATE_LIMIT_REQUESTS"@,
        NumericSetting::RateLimitDurationSecs => "RATE_LIMIT_DURATION_SECS"@,
    }
}

/// The message for a setting that cannot be read: std's message for the
/// way parsing the number failed.
pub open spec fn config_error_text(e: ConfigError) -> Seq<char> {
    parse_failure_text(e.failure)
}

impl ConfigError {
    /// The error message for this setting, as `ParseIntError` words it.
    pub fn message(&self) -> (res: String)
        ensures
            res@ == config_error_text(*self),
    {
        self.failure.message().to_owned()
    }
}

/// With no variable set, every setting takes its default and reading the
/// configuration succeeds.
pub proof fn lemma_unset_environment_gives_defaults(env: EnvValues)
    requires
        env.max_file_size_mb is None,
        env.max_concurrent_jobs is None,
        env.temp_file_ttl_hours is None,
        env.rate_limit_requests is None,
        env.rate_limit_duration_secs is None,
    ensures
        first_invalid_setting(env) is None,
        u64_setting(env.max_file_size_mb, default_max_file_size_mb()) == Some(500u64),
        usize_setting(env.max_concurrent_jobs, default_max_concurrent_jobs()) == Some(4usize),
        u64_setting(env.temp_file_ttl_hours, default_temp_file_ttl_hours()) == Some(24u64),
        u64_setting(env.rate_limit_requests, default_rate_limit_requests()) == Some(100u64),
        u64_setting(env.rate_limit_duration_secs, default_rate_limit_duration_secs()) == Some(60u64),
{
}

/// Each setting is read from its own variable: a numeric one is the
/// variable's number when set and its documented default (500, 4, 24, 100,
/// 60) when not; a text one is the variable's text or its default; the
/// allowed origins are the pieces between the commas of `ALLOWED_ORIGINS`
/// (or of `http://localhost:3000`).
pub proof fn lemma_settings_come_from_their_variables(c: Config, env: EnvValues)
    requires
        config_matches(c, env),
    ensures
        match env.max_file_size_mb { None => c.max_file_size_mb == 500, Some(t) => u64_from_text(t@) == Some(c.max_file_size_mb) },
        match env.max_concurrent_jobs { None => c.max_concurrent_jobs == 4, Some(t) => value_within(t@, usize::MAX as int) == Some(c.max_concurrent_jobs as int) },
        match env.temp_file_ttl_hours { None => c.temp_file_ttl_hours == 24, Some(t) => u64_from_text(t@) == Some(c.temp_file_ttl_hours) },
        match env.rate_limit_requests { None => c.rate_limit_requests == 100, Some(t) => u64_from_text(t@) == Some(c.rate_limit_requests) },
        match env.rate_limit_duration_secs { None => c.rate_limit_duration_secs == 60, Some(t) => u64_from_text(t@) == Some(c.rate_limit_duration_secs) },
        c.redis_url@ == match env.redis_url { None => "redis://127.0.0.1:6379"@, Some(t) => t@ },
        c.jwt_secret@ == match env.jwt_secret { None => "change_this_in_production"@, Some(t) => t@ },
        c.upload_dir@ == match env.upload_dir { None => "./uploads"@, Some(t) => t@ },
        c.processed_dir@ == match env.processed_dir { None => "./processed"@, Some(t) => t@ },
        views(c.allowed_origins@) == split_pieces(match env.allowed_origins { None => "http://localhost:3000"@, Some(t) => t@ }, ','),
{
    if let Some(t) = env.max_concurrent_jobs {
        lemma_literal_value_nonneg(t@);
    }
}

/// Reading the configuration fails exactly when some numeric variable is
/// set to a text that is not a whole number of its type, and then for the
/// first such variable in the order MAX_FILE_SIZE_MB, MAX_CONCURRENT_JOBS,
/// TEMP_FILE_TTL_HOURS, RATE_LIMIT_REQUESTS, RATE_LIMIT_DURATION_SECS.
pub proof fn lemma_first_unreadable_variable(env: EnvValues)
    ensures ({
        let size_ok = env.max_file_size_mb matches Some(t) ==> u64_from_text(t@) is Some;
        let jobs_ok = env.max_concurrent_jobs matches Some(t) ==> value_within(t@, usize::MAX as int) is Some;
        let ttl_ok = env.temp_file_ttl_hours matches Some(t) ==> u64_from_text(t@) is Some;
        let requests_ok = env.rate_limit_requests matches Some(t) ==> u64_from_text(t@) is Some;
        let duration_ok = env.rate_limit_duration_secs matches Some(t) ==> u64_from_text(t@) is Some;
        first_invalid_setting(env) == if !size_ok {
            Some(NumericSetting::MaxFileSizeMb)
        } else if !jobs_ok {
            Some(NumericSetting::MaxConcurrentJobs)
        } else if !ttl_ok {
            Some(NumericSetting::TempFileTtlHours)
        } else if !requests_ok {
            Some(NumericSetting::RateLimitRequests)
        } else if !duration_ok {
            Some(NumericSetting::RateLimitDurationSecs)
        } else {
            None
        }
    }),
{
}

} // verus!
