use std::str::FromStr;

use firecracker::rate_limiter::{BucketUpdate, RateLimiter, TokenBucket};
use firecracker::vmm_config::{
    get_bucket_update, log_line_prefix, Level, LoggerConfig, LoggerSettings, RateLimiterConfig,
    RateLimiterUpdate, TokenBucketConfig,
};

const SIZE: u64 = 1024 * 1024;
const ONE_TIME_BURST: u64 = 1024;
const REFILL_TIME: u64 = 1000;

#[test]
fn test_rate_limiter_configs() {
    let rlconf = RateLimiterConfig {
        bandwidth: Some(TokenBucketConfig {
            size: SIZE,
            one_time_burst: Some(ONE_TIME_BURST),
            refill_time: REFILL_TIME,
        }),
        ops: Some(TokenBucketConfig {
            size: SIZE * 2,
            one_time_burst: None,
            refill_time: REFILL_TIME * 2,
        }),
    };
    let rl: RateLimiter = rlconf.try_into().unwrap();
    assert_eq!(rl.bandwidth().unwrap().capacity(), SIZE);
    assert_eq!(rl.bandwidth().unwrap().one_time_burst(), ONE_TIME_BURST);
    assert_eq!(rl.bandwidth().unwrap().refill_time_ms(), REFILL_TIME);
    assert_eq!(rl.ops().unwrap().capacity(), SIZE * 2);
    assert_eq!(rl.ops().unwrap().one_time_burst(), 0);
    assert_eq!(rl.ops().unwrap().refill_time_ms(), REFILL_TIME * 2);
}

#[test]
fn test_generate_configs() {
    let bw_tb_cfg = TokenBucketConfig {
        size: SIZE,
        one_time_burst: Some(ONE_TIME_BURST),
        refill_time: REFILL_TIME,
    };
    let bw_tb = TokenBucket::new(SIZE, ONE_TIME_BURST, REFILL_TIME).unwrap();
    let generated_bw_tb_cfg = TokenBucketConfig::from(&bw_tb);
    assert_eq!(generated_bw_tb_cfg, bw_tb_cfg);

    let rl_conf = RateLimiterConfig {
        bandwidth: Some(bw_tb_cfg),
        ops: None,
    };
    let rl: RateLimiter = rl_conf.try_into().unwrap();
    let generated_rl_conf = RateLimiterConfig::from(&rl);
    assert_eq!(generated_rl_conf, rl_conf);
    assert_eq!(generated_rl_conf.into_option(), Some(rl_conf));
}

#[test]
fn empty_config_into_option_is_none() {
    let cfg = RateLimiterConfig { bandwidth: None, ops: None };
    assert_eq!(cfg.into_option(), None);
}

#[test]
fn bucket_updates_from_configs() {
    assert!(matches!(get_bucket_update(&None), BucketUpdate::NoUpdate));
    let disabled = Some(TokenBucketConfig { size: 0, one_time_burst: None, refill_time: 100 });
    assert!(matches!(get_bucket_update(&disabled), BucketUpdate::Disabled));
    let enabled = Some(TokenBucketConfig { size: 10, one_time_burst: Some(5), refill_time: 100 });
    match get_bucket_update(&enabled) {
        BucketUpdate::Update(tb) => {
            assert_eq!(tb.capacity(), 10);
            assert_eq!(tb.one_time_burst(), 5);
            assert_eq!(tb.refill_time_ms(), 100);
        }
        other => panic!("unexpected update {:?}", other),
    }

    let update = RateLimiterUpdate::from_config(None);
    assert!(matches!(update.bandwidth, BucketUpdate::NoUpdate));
    assert!(matches!(update.ops, BucketUpdate::NoUpdate));
    let update = RateLimiterUpdate::from_config(Some(RateLimiterConfig {
        bandwidth: enabled,
        ops: disabled,
    }));
    assert!(matches!(update.bandwidth, BucketUpdate::Update(_)));
    assert!(matches!(update.ops, BucketUpdate::Disabled));
}

#[test]
fn level_parsing() {
    assert_eq!(Level::from_str("ERROR").unwrap(), Level::Error);
    assert_eq!(Level::from_str("WARNING").unwrap(), Level::Warn);
    assert_eq!(Level::from_str("Warning").unwrap(), Level::Warn);
    assert_eq!(Level::from_str("warn").unwrap(), Level::Warn);
    assert_eq!(Level::from_str("Info").unwrap(), Level::Info);
    assert_eq!(Level::from_str("DEBUG").unwrap(), Level::Debug);
    assert_eq!(Level::from_str("trace").unwrap(), Level::Trace);
    assert!(Level::from_str("warning!").is_err());
    assert!(Level::from_str("off").is_err());
    assert_eq!(Level::default(), Level::Warn);
}

#[test]
fn log_line_prefix_with_everything() {
    let head = log_line_prefix(
        "2023-01-01T00:00:00.000000000",
        "anonymous-instance",
        Some("fc_vmm"),
        true,
        Level::Warn,
        true,
        Some("src/main.rs"),
        Some(120),
    );
    assert_eq!(head, "2023-01-01T00:00:00.000000000 [anonymous-instance:fc_vmm:WARN:src/main.rs:120] ");
}

#[test]
fn log_line_prefix_defaults() {
    assert_eq!(
        log_line_prefix("t", "id", None, false, Level::Error, false, Some("a.rs"), Some(7)),
        "t [id:-] "
    );
    assert_eq!(
        log_line_prefix("t", "id", None, true, Level::Trace, true, None, None),
        "t [id:-:TRACE:unknown] "
    );
    assert_eq!(
        log_line_prefix("t", "id", Some("x"), false, Level::Info, true, Some("f"), Some(0)),
        "t [id:x:f:0] "
    );
    assert_eq!(
        log_line_prefix("t", "id", Some("x"), true, Level::Debug, true, Some("f"), Some(4_294_967_295)),
        "t [id:x:DEBUG:f:4294967295] "
    );
}

#[test]
fn logger_settings() {
    let empty = LoggerConfig {
        log_path: None,
        level: None,
        show_level: None,
        show_log_origin: None,
        new_format: None,
        profile_file: None,
    };
    let defaults = LoggerSettings {
        level: Level::Warn,
        show_level: false,
        show_log_origin: false,
        new_format: false,
    };
    assert_eq!(empty.init_settings(), defaults);
    let config = LoggerConfig {
        level: Some(Level::Debug),
        show_level: Some(true),
        ..empty.clone()
    };
    let started = config.init_settings();
    assert_eq!(
        started,
        LoggerSettings { level: Level::Debug, show_level: true, show_log_origin: false, new_format: false }
    );
    assert_eq!(config.update_settings(defaults), started);
    let update = LoggerConfig { show_log_origin: Some(true), show_level: Some(false), ..empty.clone() };
    let updated = update.update_settings(started);
    assert_eq!(
        updated,
        LoggerSettings { level: Level::Debug, show_level: false, show_log_origin: true, new_format: false }
    );
    assert_eq!(update.update_settings(updated), updated);
    assert_eq!(empty.update_settings(updated), updated);
}
