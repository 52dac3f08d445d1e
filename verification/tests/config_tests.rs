use llm_bench_core::binary64::Binary64;
use llm_bench_core::config::{
    default_add_prefix, default_admin_enabled, default_admin_listen, default_common_prefix_tokens,
    default_concurrent_requests, default_health_check_interval, default_health_check_timeout,
    default_log_level, default_max_concurrency, default_metrics_interval, default_output_format,
    default_retry_initial_delay_ms, default_retry_max_delay_ms, default_sample_window,
    default_start_concurrency, default_stop_after_failures, default_timeout, default_top_logprobs,
    default_worker_threads, resolve_max_tokens, count_digits, MAX_WINDOW_DIGITS, AdminConfig, ArrivalDistribution, Config,
    ConfigError, EndpointConfig, InputConfig, LoadConfig, LogConfig, LogLevel, LogprobsConfig,
    OutputConfig, OutputFormat, RuntimeConfig, SaturationConfig, SloPercentiles, SloThresholds,
    SyntheticConfig,
};

#[test]
fn endpoint_max_tokens_overrides_workload_value() {
    assert_eq!(resolve_max_tokens(Some(128), Some(32)), Some(128));
}

#[test]
fn workload_max_tokens_is_used_when_endpoint_override_is_absent() {
    assert_eq!(resolve_max_tokens(None, Some(32)), Some(32));
}

#[test]
fn no_max_tokens_when_neither_source_sets_it() {
    assert_eq!(resolve_max_tokens(None, None), None);
}

#[test]
fn endpoint_max_tokens_used_without_workload_value() {
    assert_eq!(resolve_max_tokens(Some(7), None), Some(7));
}

fn f(x: f64) -> Binary64 {
    Binary64::from_bits(x.to_bits())
}

fn base_config() -> Config {
    Config {
        endpoint: EndpointConfig {
            base_url: "http://localhost:8000".to_string(),
            model: None,
            timeout: 60,
            max_tokens: None,
            api_key: None,
            max_retries: 0,
            retry_initial_delay_ms: 100,
            retry_max_delay_ms: 10000,
            health_check_timeout: 0,
            health_check_interval: 5,
        },
        load: LoadConfig {
            concurrent_requests: 10,
            total_requests: Some(100),
            duration_seconds: None,
            qps: None,
            arrival_distribution: ArrivalDistribution::Uniform,
            warmup_requests: None,
            warmup_duration: None,
        },
        input: InputConfig {
            file: "prompts.jsonl".to_string(),
            seed: None,
            sample_size: None,
            system_prompt: None,
            system_prompt_file: None,
            synthetic: None,
            disable_cache_busting: false,
        },
        output: OutputConfig { format: OutputFormat::Console, file: None, quiet: false, trace_log: None },
        runtime: RuntimeConfig { worker_threads: 4 },
        log: LogConfig { level: LogLevel::Info, filter: Vec::new() },
        metrics: None,
        admin: None,
        logprobs: None,
        saturation: None,
    }
}

fn saturation() -> SaturationConfig {
    SaturationConfig {
        slo: SloThresholds {
            ttft: Some(SloPercentiles { p50_ms: None, p99_ms: Some(f(500.0)), p999_ms: None }),
            itl: None,
            tpot: None,
        },
        start_concurrency: 1,
        step_multiplier: f(1.5),
        sample_window: "60s".to_string(),
        stop_after_failures: 3,
        max_concurrency: 512,
        min_throughput_ratio: f(0.9),
    }
}

fn synthetic() -> SyntheticConfig {
    SyntheticConfig {
        prompt_tokens: 100,
        prompt_tokens_stdev: None,
        prompt_tokens_min: None,
        prompt_tokens_max: None,
        add_prefix: true,
        common_prefix_sample_ratio: f(0.0),
        common_prefix_tokens: 0,
    }
}

fn synthetic_config(s: SyntheticConfig) -> Config {
    let mut c = base_config();
    c.input.file = "synthetic".to_string();
    c.endpoint.max_tokens = Some(64);
    c.input.synthetic = Some(s);
    c
}

#[test]
fn valid_config_is_accepted() {
    assert!(base_config().validate().is_ok());
    let mut c = base_config();
    c.saturation = Some(saturation());
    c.load.qps = Some(f(2.5));
    c.logprobs = Some(LogprobsConfig { enabled: true, top_logprobs: 20, output: "lp.jsonl".into() });
    assert!(c.validate().is_ok());
    assert!(synthetic_config(synthetic()).validate().is_ok());
}

#[test]
fn run_length_rules() {
    let mut c = base_config();
    c.load.total_requests = None;
    assert!(matches!(c.validate(), Err(ConfigError::MissingRunLength)));
    c.load.duration_seconds = Some(30);
    assert!(c.validate().is_ok());
    c.load.total_requests = Some(5);
    assert!(matches!(c.validate(), Err(ConfigError::ConflictingRunLength)));
}

#[test]
fn load_and_runtime_rules() {
    let mut c = base_config();
    c.load.concurrent_requests = 0;
    assert!(matches!(c.validate(), Err(ConfigError::ZeroConcurrentRequests)));
    let mut c = base_config();
    c.load.qps = Some(f(0.0));
    assert!(matches!(c.validate(), Err(ConfigError::NonPositiveQps)));
    c.load.qps = Some(f(-1.0));
    assert!(matches!(c.validate(), Err(ConfigError::NonPositiveQps)));
    c.load.qps = Some(f(-0.0));
    assert!(matches!(c.validate(), Err(ConfigError::NonPositiveQps)));
    // NaN is not greater than 0.0.
    c.load.qps = Some(f(f64::NAN));
    assert!(matches!(c.validate(), Err(ConfigError::NonPositiveQps)));
    c.load.qps = Some(f(f64::MIN_POSITIVE));
    assert!(c.validate().is_ok());
    let mut c = base_config();
    c.runtime.worker_threads = 0;
    assert!(matches!(c.validate(), Err(ConfigError::ZeroWorkerThreads)));
}

#[test]
fn logprobs_and_endpoint_rules() {
    let mut c = base_config();
    c.logprobs = Some(LogprobsConfig { enabled: true, top_logprobs: 0, output: "x".into() });
    assert!(matches!(c.validate(), Err(ConfigError::TopLogprobsOutOfRange)));
    c.logprobs = Some(LogprobsConfig { enabled: true, top_logprobs: 21, output: "x".into() });
    assert!(matches!(c.validate(), Err(ConfigError::TopLogprobsOutOfRange)));
    c.logprobs = Some(LogprobsConfig { enabled: false, top_logprobs: 21, output: "x".into() });
    assert!(c.validate().is_ok());
    let mut c = base_config();
    c.endpoint.max_tokens = Some(0);
    assert!(matches!(c.validate(), Err(ConfigError::ZeroEndpointMaxTokens)));
}

#[test]
fn saturation_rules() {
    let mut c = base_config();
    let mut s = saturation();
    s.slo = SloThresholds {
        ttft: Some(SloPercentiles { p50_ms: None, p99_ms: None, p999_ms: None }),
        itl: None,
        tpot: None,
    };
    c.saturation = Some(s);
    assert!(matches!(c.validate(), Err(ConfigError::EmptySaturationSlo)));

    let mut s = saturation();
    s.step_multiplier = f(1.0);
    c.saturation = Some(s);
    assert!(matches!(c.validate(), Err(ConfigError::StepMultiplierTooSmall)));

    let mut s = saturation();
    s.step_multiplier = f(f64::NAN);
    c.saturation = Some(s);
    assert!(matches!(c.validate(), Err(ConfigError::StepMultiplierTooSmall)));

    let mut s = saturation();
    s.step_multiplier = f(1.0 + f64::EPSILON);
    c.saturation = Some(s);
    assert!(c.validate().is_ok());

    let mut s = saturation();
    s.start_concurrency = 0;
    c.saturation = Some(s);
    assert!(matches!(c.validate(), Err(ConfigError::ZeroStartConcurrency)));

    let mut s = saturation();
    s.start_concurrency = 8;
    s.max_concurrency = 4;
    c.saturation = Some(s);
    assert!(matches!(c.validate(), Err(ConfigError::MaxConcurrencyBelowStart)));

    let mut s = saturation();
    s.min_throughput_ratio = f(1.5);
    c.saturation = Some(s);
    assert!(matches!(c.validate(), Err(ConfigError::ThroughputRatioOutOfRange)));
    let mut s = saturation();
    s.min_throughput_ratio = f(f64::NAN);
    c.saturation = Some(s);
    assert!(matches!(c.validate(), Err(ConfigError::ThroughputRatioOutOfRange)));

    let mut s = saturation();
    s.sample_window = "sixty seconds".to_string();
    c.saturation = Some(s);
    let e = c.validate().unwrap_err();
    assert!(matches!(e, ConfigError::InvalidSampleWindow(_)));
    assert!(e.message().starts_with("saturation.sample_window: "));
    assert!(e.message().len() > "saturation.sample_window: ".len());

    let mut s = saturation();
    s.sample_window = "2h 37min".to_string();
    c.saturation = Some(s);
    assert!(c.validate().is_ok());
}

#[test]
fn synthetic_rules() {
    let mut c = synthetic_config(synthetic());
    c.endpoint.max_tokens = None;
    assert!(matches!(c.validate(), Err(ConfigError::SyntheticWithoutMaxTokens)));
    let mut c = synthetic_config(synthetic());
    c.input.synthetic = None;
    assert!(matches!(c.validate(), Err(ConfigError::MissingSyntheticSection)));

    let mut s = synthetic();
    s.prompt_tokens = 0;
    assert!(matches!(synthetic_config(s).validate(), Err(ConfigError::ZeroPromptTokens)));

    let mut s = synthetic();
    s.prompt_tokens_min = Some(101);
    let e = synthetic_config(s).validate().unwrap_err();
    assert!(matches!(e, ConfigError::PromptTokensMinTooLarge { min: 101, prompt_tokens: 100 }));
    assert_eq!(e.message(), "input.synthetic.prompt_tokens_min (101) must be <= prompt_tokens (100)");

    let mut s = synthetic();
    s.prompt_tokens_max = Some(99);
    let e = synthetic_config(s).validate().unwrap_err();
    assert!(matches!(e, ConfigError::PromptTokensMaxTooSmall { max: 99, prompt_tokens: 100 }));
    assert_eq!(e.message(), "input.synthetic.prompt_tokens_max (99) must be >= prompt_tokens (100)");

    let mut s = synthetic();
    s.prompt_tokens_stdev = Some(0);
    assert!(matches!(synthetic_config(s).validate(), Err(ConfigError::ZeroPromptTokensStdev)));

    let mut s = synthetic();
    s.common_prefix_sample_ratio = f(-0.5);
    assert!(matches!(
        synthetic_config(s).validate(),
        Err(ConfigError::CommonPrefixRatioOutOfRange)
    ));
    let mut s = synthetic();
    s.common_prefix_sample_ratio = f(1.0);
    assert!(synthetic_config(s).validate().is_ok());

    let mut s = synthetic();
    s.common_prefix_tokens = 150;
    let e = synthetic_config(s).validate().unwrap_err();
    assert!(matches!(
        e,
        ConfigError::CommonPrefixTooLong { common_prefix_tokens: 150, prompt_tokens: 100 }
    ));
    assert_eq!(e.message(), "input.synthetic.common_prefix_tokens (150) cannot exceed prompt_tokens (100)");

    // The synthetic rules do not apply to other input files.
    let mut c = synthetic_config(synthetic());
    c.input.file = "synthetic.jsonl".to_string();
    c.endpoint.max_tokens = None;
    assert!(c.validate().is_ok());
}

#[test]
fn earlier_rules_are_reported_first() {
    let mut c = synthetic_config(synthetic());
    c.endpoint.max_tokens = None;
    c.load.concurrent_requests = 0;
    assert!(matches!(c.validate(), Err(ConfigError::ZeroConcurrentRequests)));
    let mut c = base_config();
    let mut s = saturation();
    s.sample_window = "bogus".into();
    s.step_multiplier = f(0.5);
    c.saturation = Some(s);
    assert!(matches!(c.validate(), Err(ConfigError::StepMultiplierTooSmall)));
}

#[test]
fn error_messages() {
    assert_eq!(
        ConfigError::MissingRunLength.message(),
        "Either total_requests or duration_seconds must be specified"
    );
    assert_eq!(
        ConfigError::SyntheticWithoutMaxTokens.message(),
        "Synthetic mode (file = \"synthetic\") requires endpoint.max_tokens to be set"
    );
    assert_eq!(
        ConfigError::ThroughputRatioOutOfRange.message(),
        "saturation.min_throughput_ratio must be between 0.0 and 1.0"
    );
}

#[test]
fn synthetic_mode_detection() {
    let mut c = base_config();
    assert!(!c.input.is_synthetic());
    c.input.file = "synthetic".into();
    assert!(c.input.is_synthetic());
    c.input.file = "./synthetic".into();
    assert!(!c.input.is_synthetic());
}

#[test]
fn log_level_names() {
    assert_eq!(LogLevel::Error.as_str(), "error");
    assert_eq!(LogLevel::Warn.as_str(), "warn");
    assert_eq!(LogLevel::Info.as_str(), "info");
    assert_eq!(LogLevel::Debug.as_str(), "debug");
    assert_eq!(LogLevel::Trace.as_str(), "trace");
}

#[test]
fn slo_threshold_presence() {
    let none = SloThresholds { ttft: None, itl: None, tpot: None };
    assert!(!none.has_any());
    let empty = SloThresholds {
        ttft: Some(SloPercentiles { p50_ms: None, p99_ms: None, p999_ms: None }),
        itl: Some(SloPercentiles { p50_ms: None, p99_ms: None, p999_ms: None }),
        tpot: None,
    };
    assert!(!empty.has_any());
    let one = SloThresholds {
        ttft: None,
        itl: None,
        tpot: Some(SloPercentiles { p50_ms: None, p99_ms: None, p999_ms: Some(f(3.0)) }),
    };
    assert!(one.has_any());
}

#[test]
fn defaults() {
    assert!(default_add_prefix());
    assert_eq!(default_common_prefix_tokens(), 0);
    assert_eq!(default_top_logprobs(), 5);
    assert_eq!(default_start_concurrency(), 1);
    assert_eq!(default_stop_after_failures(), 3);
    assert_eq!(default_max_concurrency(), 512);
    assert_eq!(default_timeout(), 60);
    assert_eq!(default_retry_initial_delay_ms(), 100);
    assert_eq!(default_retry_max_delay_ms(), 10000);
    assert_eq!(default_health_check_timeout(), 0);
    assert_eq!(default_health_check_interval(), 5);
    assert_eq!(default_concurrent_requests(), 10);
    assert_eq!(default_output_format(), OutputFormat::Console);
    assert!(default_worker_threads() >= 1);
    assert_eq!(default_log_level(), LogLevel::Info);
    assert_eq!(default_sample_window(), "60s");
    assert_eq!(default_metrics_interval(), "1m");
    assert_eq!(default_admin_listen(), "127.0.0.1:9090");
    assert!(default_admin_enabled());
    let admin = AdminConfig::default();
    assert_eq!(admin.listen, "127.0.0.1:9090");
    assert!(admin.enabled);
    assert!(RuntimeConfig::default().worker_threads >= 1);
    let log = LogConfig::default();
    assert_eq!(log.level, LogLevel::Info);
    assert!(log.filter.is_empty());
    assert_eq!(ArrivalDistribution::default(), ArrivalDistribution::Uniform);
}

#[test]
fn sample_window_digit_limit() {
    assert_eq!(count_digits("60s"), 2);
    assert_eq!(count_digits("1h 30min 15s"), 5);
    assert_eq!(count_digits("no digits"), 0);
    assert!(count_digits("18446744073709551615s 1000000000ns") > MAX_WINDOW_DIGITS);
    let mut c = base_config();
    let mut s = saturation();
    s.sample_window = "99999999999y".to_string();
    c.saturation = Some(s);
    assert!(c.validate().is_ok());
}
