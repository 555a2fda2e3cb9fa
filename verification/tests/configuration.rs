use vidspeed::config::{Config, EnvValues, NumericSetting};
use vidspeed::decimal::ParseFailure;

fn unset() -> EnvValues {
    EnvValues {
        max_file_size_mb: None,
        max_concurrent_jobs: None,
        temp_file_ttl_hours: None,
        rate_limit_requests: None,
        rate_limit_duration_secs: None,
        redis_url: None,
        jwt_secret: None,
        allowed_origins: None,
        upload_dir: None,
        processed_dir: None,
    }
}

#[test]
fn unset_environment_gives_defaults() {
    let c = Config::from_env(&unset()).ok().unwrap();
    assert_eq!(c.max_file_size_mb, 500);
    assert_eq!(c.max_concurrent_jobs, 4);
    assert_eq!(c.temp_file_ttl_hours, 24);
    assert_eq!(c.rate_limit_requests, 100);
    assert_eq!(c.rate_limit_duration_secs, 60);
    assert_eq!(c.redis_url, "redis://127.0.0.1:6379");
    assert_eq!(c.jwt_secret, "change_this_in_production");
    assert_eq!(c.allowed_origins, vec!["http://localhost:3000"]);
    assert_eq!(c.upload_dir, "./uploads");
    assert_eq!(c.processed_dir, "./processed");
}

#[test]
fn set_variables_override_defaults() {
    let mut env = unset();
    env.temp_file_ttl_hours = Some("48".to_string());
    env.max_concurrent_jobs = Some("+8".to_string());
    env.allowed_origins = Some("https://a.example,https://b.example".to_string());
    env.upload_dir = Some("/srv/in".to_string());
    let c = Config::from_env(&env).ok().unwrap();
    assert_eq!(c.temp_file_ttl_hours, 48);
    assert_eq!(c.max_concurrent_jobs, 8);
    assert_eq!(c.allowed_origins, vec!["https://a.example", "https://b.example"]);
    assert_eq!(c.upload_dir, "/srv/in");
    assert_eq!(c.processed_dir, "./processed");
}

#[test]
fn invalid_number_is_reported_with_its_variable() {
    let mut env = unset();
    env.rate_limit_requests = Some("many".to_string());
    let e = Config::from_env(&env).err().unwrap();
    assert_eq!(e.setting, NumericSetting::RateLimitRequests);
    assert_eq!(e.value, "many");
    assert_eq!(e.setting.variable_name(), "RATE_LIMIT_REQUESTS");
    assert_eq!(e.failure, ParseFailure::InvalidDigit);
    assert_eq!(e.message(), "invalid digit found in string");
    assert_eq!(e.message(), "many".parse::<u64>().unwrap_err().to_string());
}

#[test]
fn first_invalid_setting_in_reading_order_is_reported() {
    let mut env = unset();
    env.rate_limit_duration_secs = Some("".to_string());
    env.max_file_size_mb = Some("-5".to_string());
    let e = Config::from_env(&env).err().unwrap();
    assert_eq!(e.setting, NumericSetting::MaxFileSizeMb);
    assert_eq!(e.value, "-5");
}

#[test]
fn out_of_range_number_is_refused() {
    let mut env = unset();
    env.temp_file_ttl_hours = Some("18446744073709551616".to_string());
    let e = Config::from_env(&env).err().unwrap();
    assert_eq!(e.setting, NumericSetting::TempFileTtlHours);
    assert_eq!(e.failure, ParseFailure::PosOverflow);
    assert_eq!(e.message(), "number too large to fit in target type");
}

#[test]
fn config_errors_read_as_the_integer_parse_error() {
    for (text, usize_setting) in [("", false), ("+", false), ("-1", false), ("4x", true), ("99999999999999999999x", false), ("18446744073709551616", true)] {
        let mut env = unset();
        if usize_setting {
            env.max_concurrent_jobs = Some(text.to_string());
        } else {
            env.max_file_size_mb = Some(text.to_string());
        }
        let e = Config::from_env(&env).err().unwrap();
        let expected = if usize_setting {
            text.parse::<usize>().unwrap_err().to_string()
        } else {
            text.parse::<u64>().unwrap_err().to_string()
        };
        assert_eq!(e.message(), expected, "{:?}", text);
    }
}

#[test]
fn upload_limit_in_bytes() {
    let c = Config::from_env(&unset()).ok().unwrap();
    assert_eq!(c.max_upload_bytes(), Some(500 * 1024 * 1024));
    let mut big = c.clone();
    big.max_file_size_mb = u64::MAX / 1048576;
    assert_eq!(big.max_upload_bytes(), Some((u64::MAX / 1048576) * 1048576));
    big.max_file_size_mb = u64::MAX / 1048576 + 1;
    assert_eq!(big.max_upload_bytes(), None);
}
