//! Benchmark configuration: the settings, their defaults and the rules that a
//! configuration must satisfy before a run starts.
use vstd::prelude::*;
use vstd::string::StrSliceExecFns;
use crate::binary64::{Binary64, le_bits, lt_bits, ONE_BITS};
use crate::text::{decimal, decimal_text};

verus! {

/// Resolve the effective `max_tokens` for a request.
///
/// Endpoint-level configuration takes precedence over workload-level values so
/// a single config file can enforce a consistent response cap across modes.
pub fn resolve_max_tokens(
    endpoint_max_tokens: Option<u32>,
    workload_max_tokens: Option<u32>,
) -> (r: Option<u32>)
    ensures
        endpoint_max_tokens is Some ==> r == endpoint_max_tokens,
        endpoint_max_tokens is None ==> r == workload_max_tokens,
{
    match endpoint_max_tokens {
        Some(v) => Some(v),
        None => workload_max_tokens,
    }
}

/// How the server is reached.
#[derive(Debug)]
pub struct EndpointConfig {
    pub base_url: String,
    /// Model name; when absent it is detected from the server.
    pub model: Option<String>,
    pub timeout: u64,
    pub max_tokens: Option<u32>,
    pub api_key: Option<String>,
    pub max_retries: u32,
    pub retry_initial_delay_ms: u64,
    pub retry_max_delay_ms: u64,
    /// Total time to wait for server readiness in seconds (0 = disabled).
    pub health_check_timeout: u64,
    /// Interval between readiness check retries in seconds.
    pub health_check_interval: u64,
}

/// Request arrival pattern.
#[derive(Clone, Copy, Debug, PartialEq, Eq, Structural)]
pub enum ArrivalDistribution {
    /// Fixed intervals (deterministic).
    Uniform,
    /// Exponential inter-arrival times (stochastic).
    Poisson,
}

impl Default for ArrivalDistribution {
    fn default() -> (r: Self)
        ensures
            r == ArrivalDistribution::Uniform,
    {
        ArrivalDistribution::Uniform
    }
}

/// How much load is generated.
#[derive(Debug)]
pub struct LoadConfig {
    pub concurrent_requests: usize,
    pub total_requests: Option<usize>,
    pub duration_seconds: Option<u64>,
    /// Fixed request rate; when set the run uses fixed-QPS mode.
    pub qps: Option<Binary64>,
    pub arrival_distribution: ArrivalDistribution,
    /// Number of warmup requests excluded from metrics.
    pub warmup_requests: Option<usize>,
    /// Warmup duration in seconds (alternative to `warmup_requests`).
    pub warmup_duration: Option<u64>,
}

/// Settings of generated (synthetic) prompts.
#[derive(Debug)]
pub struct SyntheticConfig {
    /// Average number of tokens in generated prompts.
    pub prompt_tokens: usize,
    /// Standard deviation for the prompt token count (Gaussian distribution).
    pub prompt_tokens_stdev: Option<usize>,
    /// Minimum prompt token count (hard limit).
    pub prompt_tokens_min: Option<usize>,
    /// Maximum prompt token count (hard limit).
    pub prompt_tokens_max: Option<usize>,
    /// Whether to add a unique `[synthetic-{index}]` prefix for cache busting.
    pub add_prefix: bool,
    /// Ratio of samples that share a common prefix (0.0 to 1.0).
    pub common_prefix_sample_ratio: Binary64,
    /// Token length of the common prefix shared by the sampled prompts.
    pub common_prefix_tokens: usize,
}

/// Where prompts come from.
#[derive(Debug)]
pub struct InputConfig {
    /// Path of the prompt file, or `synthetic` for generated prompts.
    pub file: String,
    /// Seed for deterministic shuffling of the prompts.
    pub seed: Option<u64>,
    pub sample_size: Option<usize>,
    /// System prompt that overrides or is prepended to the dataset's.
    pub system_prompt: Option<String>,
    /// Path of a file holding the system prompt.
    pub system_prompt_file: Option<String>,
    /// Settings used when `file` is `synthetic`.
    pub synthetic: Option<SyntheticConfig>,
    /// Disable the automatic `[req-{index}]` cache-busting prefix.
    pub disable_cache_busting: bool,
}

/// The path that selects generated prompts.
pub open spec fn synthetic_marker() -> Seq<char> {
    seq!['s', 'y', 'n', 't', 'h', 'e', 't', 'i', 'c']
}

impl InputConfig {
    /// Check if synthetic mode is enabled.
    pub fn is_synthetic(&self) -> (r: bool)
        ensures
            r == (self.file@ == synthetic_marker()),
    {
        let marker = String::from_str("synthetic");
        proof {
            reveal_strlit("synthetic");
        }
        assert(marker@ =~= synthetic_marker());
        self.file == marker
    }
}

/// Report format.
#[derive(Clone, Copy, Debug, PartialEq, Eq, Structural)]
pub enum OutputFormat {
    Console,
    Json,
}

/// Where and how results are written.
#[derive(Debug)]
pub struct OutputConfig {
    pub format: OutputFormat,
    pub file: Option<String>,
    pub quiet: bool,
    pub trace_log: Option<String>,
}

/// Runtime settings.
#[derive(Debug)]
pub struct RuntimeConfig {
    pub worker_threads: usize,
}

/// Logging verbosity.
#[derive(Clone, Copy, Debug, PartialEq, Eq, Structural)]
pub enum LogLevel {
    Error,
    Warn,
    Info,
    Debug,
    Trace,
}

/// The lowercase name of a log level.
pub open spec fn log_level_name(level: LogLevel) -> Seq<char> {
    match level {
        LogLevel::Error => seq!['e', 'r', 'r', 'o', 'r'],
        LogLevel::Warn => seq!['w', 'a', 'r', 'n'],
        LogLevel::Info => seq!['i', 'n', 'f', 'o'],
        LogLevel::Debug => seq!['d', 'e', 'b', 'u', 'g'],
        LogLevel::Trace => seq!['t', 'r', 'a', 'c', 'e'],
    }
}

impl LogLevel {
    pub fn as_str(&self) -> (r: &'static str)
        ensures
            r@ == log_level_name(*self),
    {
        match self {
            LogLevel::Error => {
                proof {
                    reveal_strlit("error");
                }
                "error"
            },
            LogLevel::Warn => {
                proof {
                    reveal_strlit("warn");
                }
                "warn"
            },
            LogLevel::Info => {
                proof {
                    reveal_strlit("info");
                }
                "info"
            },
            LogLevel::Debug => {
                proof {
                    reveal_strlit("debug");
                }
                "debug"
            },
            LogLevel::Trace => {
                proof {
                    reveal_strlit("trace");
                }
                "trace"
            },
        }
    }
}


/// Logging settings.
#[derive(Debug)]
pub struct LogConfig {
    pub level: LogLevel,
    /// Per-module log level overrides (e.g. `hyper=info`).
    pub filter: Vec<String>,
}

/// Parquet metrics output.
#[derive(Debug)]
pub struct MetricsConfig {
    /// File for parquet metrics output.
    pub output: String,
    /// The snapshot interval (e.g. `1s`, `500ms`).
    pub interval: String,
    /// Batch size for parquet files.
    pub batch_size: Option<usize>,
}

/// The admin listener.
#[derive(Debug)]
pub struct AdminConfig {
    pub listen: String,
    pub enabled: bool,
}

/// Token log-probability collection.
#[derive(Debug)]
pub struct LogprobsConfig {
    /// Whether to request logprobs from the server.
    pub enabled: bool,
    /// Number of top token log probabilities to request (1-20).
    pub top_logprobs: u8,
    /// Path of the JSONL output.
    pub output: String,
}

/// Latency thresholds, in milliseconds, at three percentiles.
#[derive(Debug)]
pub struct SloPercentiles {
    pub p50_ms: Option<Binary64>,
    pub p99_ms: Option<Binary64>,
    pub p999_ms: Option<Binary64>,
}

/// Service-level objectives of a saturation search.
#[derive(Debug)]
pub struct SloThresholds {
    /// Time to first token.
    pub ttft: Option<SloPercentiles>,
    /// Inter-token latency.
    pub itl: Option<SloPercentiles>,
    /// Time per output token.
    pub tpot: Option<SloPercentiles>,
}

/// Search for the highest concurrency that still meets the objectives.
#[derive(Debug)]
pub struct SaturationConfig {
    /// Thresholds; at least one metric and percentile must be given.
    pub slo: SloThresholds,
    /// Starting concurrency level.
    pub start_concurrency: usize,
    /// Multiplier for each concurrency step (must be > 1.0).
    pub step_multiplier: Binary64,
    /// Duration to sample at each concurrency level (e.g. `60s`).
    pub sample_window: String,
    /// Number of consecutive failures before stopping.
    pub stop_after_failures: u32,
    /// Maximum concurrency to try.
    pub max_concurrency: usize,
    /// Minimum ratio of achieved to expected output throughput (0.0 to 1.0).
    pub min_throughput_ratio: Binary64,
}

/// Whether a percentile group sets at least one threshold.
pub open spec fn percentiles_configured(p: Option<SloPercentiles>) -> bool {
    match p {
        Some(s) => s.p50_ms is Some || s.p99_ms is Some || s.p999_ms is Some,
        None => false,
    }
}

fn percentiles_set(p: &Option<SloPercentiles>) -> (r: bool)
    ensures
        r == percentiles_configured(*p),
{
    match p {
        Some(s) => s.p50_ms.is_some() || s.p99_ms.is_some() || s.p999_ms.is_some(),
        None => false,
    }
}

impl SloThresholds {
    /// Whether at least one threshold is configured.
    pub open spec fn any_configured(self) -> bool {
        percentiles_configured(self.ttft) || percentiles_configured(self.itl)
            || percentiles_configured(self.tpot)
    }

    /// Returns true if at least one threshold is configured.
    pub fn has_any(&self) -> (r: bool)
        ensures
            r == self.any_configured(),
    {
        percentiles_set(&self.ttft) || percentiles_set(&self.itl) || percentiles_set(&self.tpot)
    }
}

/// A complete benchmark configuration.
#[derive(Debug)]
pub struct Config {
    pub endpoint: EndpointConfig,
    pub load: LoadConfig,
    pub input: InputConfig,
    pub output: OutputConfig,
    pub runtime: RuntimeConfig,
    pub log: LogConfig,
    pub metrics: Option<MetricsConfig>,
    pub admin: Option<AdminConfig>,
    pub logprobs: Option<LogprobsConfig>,
    pub saturation: Option<SaturationConfig>,
}

/// Default of `SyntheticConfig::add_prefix`.
pub fn default_add_prefix() -> (r: bool)
    ensures
        r,
{
    true
}

/// Default of `SyntheticConfig::common_prefix_tokens`.
pub fn default_common_prefix_tokens() -> (r: usize)
    ensures
        r == 0,
{
    0
}

/// Default of `LogprobsConfig::top_logprobs`.
pub fn default_top_logprobs() -> (r: u8)
    ensures
        r == 5,
{
    5
}

/// Default of `SaturationConfig::start_concurrency`.
pub fn default_start_concurrency() -> (r: usize)
    ensures
        r == 1,
{
    1
}

/// Default of `SaturationConfig::stop_after_failures`.
pub fn default_stop_after_failures() -> (r: u32)
    ensures
        r == 3,
{
    3
}

/// Default of `SaturationConfig::max_concurrency`.
pub fn default_max_concurrency() -> (r: usize)
    ensures
        r == 512,
{
    512
}

/// Default of `EndpointConfig::timeout`, in seconds.
pub fn default_timeout() -> (r: u64)
    ensures
        r == 60,
{
    60
}

/// Default of `EndpointConfig::retry_initial_delay_ms`.
pub fn default_retry_initial_delay_ms() -> (r: u64)
    ensures
        r == 100,
{
    100
}

/// Default of `EndpointConfig::retry_max_delay_ms` (10 seconds).
pub fn default_retry_max_delay_ms() -> (r: u64)
    ensures
        r == 10000,
{
    10000
}

/// Default of `EndpointConfig::health_check_timeout`: the check is disabled.
pub fn default_health_check_timeout() -> (r: u64)
    ensures
        r == 0,
{
    0
}

/// Default of `EndpointConfig::health_check_interval`, in seconds.
pub fn default_health_check_interval() -> (r: u64)
    ensures
        r == 5,
{
    5
}

/// Default of `LoadConfig::concurrent_requests`.
pub fn default_concurrent_requests() -> (r: usize)
    ensures
        r == 10,
{
    10
}

/// Default of `OutputConfig::format`.
pub fn default_output_format() -> (r: OutputFormat)
    ensures
        r == OutputFormat::Console,
{
    OutputFormat::Console
}

/// Number of logical CPUs available to this process, from `num_cpus::get`.
/// The crate documents that the result is always at least 1; which number
/// comes back depends on the machine and is not stated.
#[verifier::external_body]
fn available_cpus() -> (r: usize)
    ensures
        r >= 1,
{
    num_cpus::get()
}

/// Default of `RuntimeConfig::worker_threads`: the number of available CPUs.
pub fn default_worker_threads() -> (r: usize)
    ensures
        r >= 1,
{
    available_cpus()
}

/// Default of `LogConfig::level`.
pub fn default_log_level() -> (r: LogLevel)
    ensures
        r == LogLevel::Info,
{
    LogLevel::Info
}

/// `1m`: the default of `MetricsConfig::interval`.
pub open spec fn default_metrics_interval_text() -> Seq<char> {
    seq!['1', 'm']
}

/// `60s`: the default of `SaturationConfig::sample_window`.
pub open spec fn default_sample_window_text() -> Seq<char> {
    seq!['6', '0', 's']
}

/// `127.0.0.1:9090`: the default admin listen address.
pub open spec fn default_admin_listen_text() -> Seq<char> {
    seq!['1', '2', '7', '.', '0', '.', '0', '.', '1', ':', '9', '0', '9', '0']
}

/// Default of `SaturationConfig::sample_window`.
pub fn default_sample_window() -> (r: String)
    ensures
        r@ == default_sample_window_text(),
{
    let s = String::from_str("60s");
    proof {
        reveal_strlit("60s");
    }
    assert(s@ =~= default_sample_window_text());
    s
}

/// Default of `MetricsConfig::interval`.
pub fn default_metrics_interval() -> (r: String)
    ensures
        r@ == default_metrics_interval_text(),
{
    let s = String::from_str("1m");
    proof {
        reveal_strlit("1m");
    }
    assert(s@ =~= default_metrics_interval_text());
    s
}

/// Default of `AdminConfig::listen`.
pub fn default_admin_listen() -> (r: String)
    ensures
        r@ == default_admin_listen_text(),
{
    let s = String::from_str("127.0.0.1:9090");
    proof {
        reveal_strlit("127.0.0.1:9090");
    }
    assert(s@ =~= default_admin_listen_text());
    s
}

/// Default of `AdminConfig::enabled`.
pub fn default_admin_enabled() -> (r: bool)
    ensures
        r,
{
    true
}

impl Default for AdminConfig {
    fn default() -> (r: Self)
        ensures
            r.listen@ == default_admin_listen_text(),
            r.enabled,
    {
        AdminConfig { listen: default_admin_listen(), enabled: default_admin_enabled() }
    }
}

impl Default for RuntimeConfig {
    fn default() -> (r: Self)
        ensures
            r.worker_threads >= 1,
    {
        RuntimeConfig { worker_threads: default_worker_threads() }
    }
}

impl Default for LogConfig {
    fn default() -> (r: Self)
        ensures
            r.level == LogLevel::Info,
            r.filter@.len() == 0,
    {
        LogConfig { level: default_log_level(), filter: Vec::new() }
    }
}


#[verifier::external_type_specification]
#[verifier::external_body]
pub struct ExDurationError(humantime::DurationError);

/// Whether `humantime::parse_duration` accepts the text as a duration.
pub uninterp spec fn duration_accepted(text: Seq<char>) -> bool;

/// Whether a character is an ASCII decimal digit.
pub open spec fn is_digit(c: char) -> bool {
    '0' <= c && c <= '9'
}

/// The number of ASCII decimal digits in a text.
pub open spec fn digit_count(s: Seq<char>) -> nat
    decreases s.len(),
{
    if s.len() == 0 {
        0
    } else {
        digit_count(s.drop_last()) + if is_digit(s.last()) {
            1nat
        } else {
            0nat
        }
    }
}

/// The most digits a sample window may hold. A duration text with at most
/// this many digits denotes less than `31_557_600 * 10^11` seconds (a year
/// times the largest number its digits can write), far below `u64::MAX`
/// seconds, so `humantime::parse_duration` never reaches the seconds limit on
/// it, where its call of `std::time::Duration::new` can panic.
pub const MAX_WINDOW_DIGITS: usize = 11;

/// Counts the decimal digits of a text.
pub fn count_digits(text: &str) -> (r: usize)
    ensures
        r == digit_count(text@),
{
    let n = text.unicode_len();
    let mut count: usize = 0;
    let mut i: usize = 0;
    while i < n
        invariant
            n == text@.len(),
            i <= n,
            count <= i,
            count == digit_count(text@.take(i as int)),
        decreases n - i,
    {
        let c = text.get_char(i);
        assert(text@.take(i + 1).drop_last() =~= text@.take(i as int));
        if '0' <= c && c <= '9' {
            count = count + 1;
        }
        i = i + 1;
    }
    assert(text@.take(n as int) =~= text@);
    count
}

/// Parses a duration such as `60s` or `2h 37min` with
/// `humantime::parse_duration`. The claim is only that success is a function
/// of the text (named `duration_accepted`); the parsed duration is dropped and
/// which error value comes back on failure is left unsaid. The call panics on
/// some texts whose spans add up to exactly `u64::MAX` seconds and one carried
/// second; those need more than `MAX_WINDOW_DIGITS` digits, which the
/// precondition leaves out.
#[verifier::external_body]
fn parse_duration_text(text: &str) -> (r: Result<(), humantime::DurationError>)
    requires
        digit_count(text@) <= MAX_WINDOW_DIGITS,
    ensures
        r is Ok <==> duration_accepted(text@),
{
    match humantime::parse_duration(text) {
        Ok(_) => Ok(()),
        Err(e) => Err(e),
    }
}

/// Whether the sample window of a configuration, if it has a saturation
/// search, holds at most `MAX_WINDOW_DIGITS` digits.
pub open spec fn window_within_digit_limit(c: Config) -> bool {
    c.saturation matches Some(sat) ==> digit_count(sat.sample_window@) <= MAX_WINDOW_DIGITS
}

/// Why a configuration is refused.
#[derive(Debug)]
pub enum ConfigError {
    /// Neither `total_requests` nor `duration_seconds` is set.
    MissingRunLength,
    /// Both `total_requests` and `duration_seconds` are set.
    ConflictingRunLength,
    ZeroConcurrentRequests,
    /// `qps` is set and not greater than 0 (NaN included).
    NonPositiveQps,
    ZeroWorkerThreads,
    /// Logprobs are enabled with `top_logprobs` outside 1..=20.
    TopLogprobsOutOfRange,
    /// `endpoint.max_tokens` is set to 0.
    ZeroEndpointMaxTokens,
    /// The saturation objectives set no threshold.
    EmptySaturationSlo,
    /// `saturation.step_multiplier` is not greater than 1.0 (NaN included).
    StepMultiplierTooSmall,
    ZeroStartConcurrency,
    /// `saturation.max_concurrency` is below `start_concurrency`.
    MaxConcurrencyBelowStart,
    /// `saturation.min_throughput_ratio` is outside [0.0, 1.0].
    ThroughputRatioOutOfRange,
    /// `saturation.sample_window` is not a duration.
    InvalidSampleWindow(humantime::DurationError),
    /// Synthetic mode without `endpoint.max_tokens`.
    SyntheticWithoutMaxTokens,
    /// Synthetic mode without an `[input.synthetic]` section.
    MissingSyntheticSection,
    ZeroPromptTokens,
    /// `prompt_tokens_min` exceeds `prompt_tokens`.
    PromptTokensMinTooLarge { min: usize, prompt_tokens: usize },
    /// `prompt_tokens_max` is below `prompt_tokens`.
    PromptTokensMaxTooSmall { max: usize, prompt_tokens: usize },
    /// `prompt_tokens_stdev` is set to 0.
    ZeroPromptTokensStdev,
    /// `common_prefix_sample_ratio` is outside [0.0, 1.0].
    CommonPrefixRatioOutOfRange,
    /// `common_prefix_tokens` exceeds `prompt_tokens`.
    CommonPrefixTooLong { common_prefix_tokens: usize, prompt_tokens: usize },
}

/// The first rule on load, runtime, logprobs and endpoint that the
/// configuration breaks, in the order in which they are checked.
pub open spec fn general_violation(c: Config) -> Option<ConfigError> {
    if c.load.total_requests is None && c.load.duration_seconds is None {
        Some(ConfigError::MissingRunLength)
    } else if c.load.total_requests is Some && c.load.duration_seconds is Some {
        Some(ConfigError::ConflictingRunLength)
    } else if c.load.concurrent_requests == 0 {
        Some(ConfigError::ZeroConcurrentRequests)
    } else if c.load.qps matches Some(q) && !lt_bits(0, q.bits) {
        Some(ConfigError::NonPositiveQps)
    } else if c.runtime.worker_threads == 0 {
        Some(ConfigError::ZeroWorkerThreads)
    } else if c.logprobs matches Some(lp) && lp.enabled && (lp.top_logprobs == 0
        || lp.top_logprobs > 20) {
        Some(ConfigError::TopLogprobsOutOfRange)
    } else if c.endpoint.max_tokens == Some(0u32) {
        Some(ConfigError::ZeroEndpointMaxTokens)
    } else {
        None
    }
}

/// The first rule on the saturation search, other than the form of the
/// sample window, that the configuration breaks.
pub open spec fn saturation_violation(c: Config) -> Option<ConfigError> {
    match c.saturation {
        None => None,
        Some(sat) => if !sat.slo.any_configured() {
            Some(ConfigError::EmptySaturationSlo)
        } else if !lt_bits(ONE_BITS, sat.step_multiplier.bits) {
            Some(ConfigError::StepMultiplierTooSmall)
        } else if sat.start_concurrency < 1 {
            Some(ConfigError::ZeroStartConcurrency)
        } else if sat.max_concurrency < sat.start_concurrency {
            Some(ConfigError::MaxConcurrencyBelowStart)
        } else if !(le_bits(0, sat.min_throughput_ratio.bits) && le_bits(
            sat.min_throughput_ratio.bits,
            ONE_BITS,
        )) {
            Some(ConfigError::ThroughputRatioOutOfRange)
        } else {
            None
        },
    }
}

/// The first rule of synthetic mode that the configuration breaks; none
/// applies when the input file is not `synthetic`.
pub open spec fn synthetic_violation(c: Config) -> Option<ConfigError> {
    if c.input.file@ != synthetic_marker() {
        None
    } else if c.endpoint.max_tokens is None {
        Some(ConfigError::SyntheticWithoutMaxTokens)
    } else {
        match c.input.synthetic {
            None => Some(ConfigError::MissingSyntheticSection),
            Some(s) => if s.prompt_tokens == 0 {
                Some(ConfigError::ZeroPromptTokens)
            } else if s.prompt_tokens_min matches Some(min) && min > s.prompt_tokens {
                Some(
                    ConfigError::PromptTokensMinTooLarge {
                        min: s.prompt_tokens_min->0,
                        prompt_tokens: s.prompt_tokens,
                    },
                )
            } else if s.prompt_tokens_max matches Some(max) && max < s.prompt_tokens {
                Some(
                    ConfigError::PromptTokensMaxTooSmall {
                        max: s.prompt_tokens_max->0,
                        prompt_tokens: s.prompt_tokens,
                    },
                )
            } else if s.prompt_tokens_stdev == Some(0usize) {
                Some(ConfigError::ZeroPromptTokensStdev)
            } else if !(le_bits(0, s.common_prefix_sample_ratio.bits) && le_bits(
                s.common_prefix_sample_ratio.bits,
                ONE_BITS,
            )) {
                Some(ConfigError::CommonPrefixRatioOutOfRange)
            } else if s.common_prefix_tokens > s.prompt_tokens {
                Some(
                    ConfigError::CommonPrefixTooLong {
                        common_prefix_tokens: s.common_prefix_tokens,
                        prompt_tokens: s.prompt_tokens,
                    },
                )
            } else {
                None
            },
        }
    }
}

/// The outcome of validating `c`, given the outcome of parsing the sample
/// window of its saturation search (ignored when there is none).
pub open spec fn validation_outcome(c: Config, window: Result<(), humantime::DurationError>) -> Result<
    (),
    ConfigError,
> {
    if general_violation(c) is Some {
        Err(general_violation(c)->0)
    } else if saturation_violation(c) is Some {
        Err(saturation_violation(c)->0)
    } else if c.saturation is Some && window is Err {
        Err(ConfigError::InvalidSampleWindow(window->Err_0))
    } else if synthetic_violation(c) is Some {
        Err(synthetic_violation(c)->0)
    } else {
        Ok(())
    }
}

/// Whether every rule holds, given whether the sample window parses.
pub open spec fn config_valid(c: Config, window_ok: bool) -> bool {
    &&& general_violation(c) is None
    &&& saturation_violation(c) is None
    &&& (c.saturation is Some ==> window_ok)
    &&& synthetic_violation(c) is None
}

impl Config {
    fn check_general(&self) -> (r: Option<ConfigError>)
        ensures
            r == general_violation(*self),
    {
        if self.load.total_requests.is_none() && self.load.duration_seconds.is_none() {
            return Some(ConfigError::MissingRunLength);
        }
        if self.load.total_requests.is_some() && self.load.duration_seconds.is_some() {
            return Some(ConfigError::ConflictingRunLength);
        }
        if self.load.concurrent_requests == 0 {
            return Some(ConfigError::ZeroConcurrentRequests);
        }
        if let Some(qps) = &self.load.qps {
            if !Binary64::zero().lt(qps) {
                return Some(ConfigError::NonPositiveQps);
            }
        }
        if self.runtime.worker_threads == 0 {
            return Some(ConfigError::ZeroWorkerThreads);
        }
        if let Some(logprobs) = &self.logprobs {
            if logprobs.enabled && (logprobs.top_logprobs == 0 || logprobs.top_logprobs > 20) {
                return Some(ConfigError::TopLogprobsOutOfRange);
            }
        }
        if let Some(max_tokens) = self.endpoint.max_tokens {
            if max_tokens == 0 {
                return Some(ConfigError::ZeroEndpointMaxTokens);
            }
        }
        None
    }

    fn check_saturation(&self) -> (r: Option<ConfigError>)
        ensures
            r == saturation_violation(*self),
    {
        match &self.saturation {
            None => None,
            Some(sat) => {
                if !sat.slo.has_any() {
                    Some(ConfigError::EmptySaturationSlo)
                } else if !Binary64::one().lt(&sat.step_multiplier) {
                    Some(ConfigError::StepMultiplierTooSmall)
                } else if sat.start_concurrency < 1 {
                    Some(ConfigError::ZeroStartConcurrency)
                } else if sat.max_concurrency < sat.start_concurrency {
                    Some(ConfigError::MaxConcurrencyBelowStart)
                } else if !sat.min_throughput_ratio.in_unit_interval() {
                    Some(ConfigError::ThroughputRatioOutOfRange)
                } else {
                    None
                }
            },
        }
    }

    fn check_synthetic(&self) -> (r: Option<ConfigError>)
        ensures
            r == synthetic_violation(*self),
    {
        if !self.input.is_synthetic() {
            return None;
        }
        if self.endpoint.max_tokens.is_none() {
            return Some(ConfigError::SyntheticWithoutMaxTokens);
        }
        let synthetic = match &self.input.synthetic {
            Some(s) => s,
            None => {
                return Some(ConfigError::MissingSyntheticSection);
            },
        };
        if synthetic.prompt_tokens == 0 {
            return Some(ConfigError::ZeroPromptTokens);
        }
        if let Some(min) = synthetic.prompt_tokens_min {
            if min > synthetic.prompt_tokens {
                return Some(
                    ConfigError::PromptTokensMinTooLarge {
                        min,
                        prompt_tokens: synthetic.prompt_tokens,
                    },
                );
            }
        }
        if let Some(max) = synthetic.prompt_tokens_max {
            if max < synthetic.prompt_tokens {
                return Some(
                    ConfigError::PromptTokensMaxTooSmall {
                        max,
                        prompt_tokens: synthetic.prompt_tokens,
                    },
                );
            }
        }
        if let Some(stdev) = synthetic.prompt_tokens_stdev {
            if stdev == 0 {
                return Some(ConfigError::ZeroPromptTokensStdev);
            }
        }
        if !synthetic.common_prefix_sample_ratio.in_unit_interval() {
            return Some(ConfigError::CommonPrefixRatioOutOfRange);
        }
        if synthetic.common_prefix_tokens > synthetic.prompt_tokens {
            return Some(
                ConfigError::CommonPrefixTooLong {
                    common_prefix_tokens: synthetic.common_prefix_tokens,
                    prompt_tokens: synthetic.prompt_tokens,
                },
            );
        }
        None
    }

    /// Checks every rule, taking as `window` the outcome of parsing the sample
    /// window of the saturation search; `window` is not consulted when the
    /// configuration has no saturation search.
    pub fn validate_with_window(&self, window: Result<(), humantime::DurationError>) -> (r: Result<
        (),
        ConfigError,
    >)
        ensures
            r == validation_outcome(*self, window),
    {
        if let Some(e) = self.check_general() {
            return Err(e);
        }
        if let Some(e) = self.check_saturation() {
            return Err(e);
        }
        if self.saturation.is_some() {
            if let Err(e) = window {
                return Err(ConfigError::InvalidSampleWindow(e));
            }
        }
        if let Some(e) = self.check_synthetic() {
            return Err(e);
        }
        Ok(())
    }

    /// Checks every rule of a configuration; the sample window of a saturation
    /// search must be a duration that `humantime` accepts. A window with more
    /// than `MAX_WINDOW_DIGITS` digits is left to `validate_with_window`, with
    /// the parse outcome obtained by the caller.
    pub fn validate(&self) -> (r: Result<(), ConfigError>)
        requires
            window_within_digit_limit(*self),
        ensures
            r is Ok <==> config_valid(
                *self,
                self.saturation is Some && duration_accepted(self.saturation->0.sample_window@),
            ),
            general_violation(*self) is Some ==> r == Err::<(), ConfigError>(
                general_violation(*self)->0,
            ),
            general_violation(*self) is None && saturation_violation(*self) is Some ==> r == Err::<
                (),
                ConfigError,
            >(saturation_violation(*self)->0),
            general_violation(*self) is None && saturation_violation(*self) is None
                && self.saturation is Some && !duration_accepted(
                self.saturation->0.sample_window@,
            ) ==> r matches Err(ConfigError::InvalidSampleWindow(_)),
            general_violation(*self) is None && saturation_violation(*self) is None && (
            self.saturation is None || duration_accepted(self.saturation->0.sample_window@))
                ==> r == match synthetic_violation(*self) {
                Some(e) => Err::<(), ConfigError>(e),
                None => Ok(()),
            },
    {
        let window = match &self.saturation {
            Some(sat) => parse_duration_text(sat.sample_window.as_str()),
            None => Ok(()),
        };
        self.validate_with_window(window)
    }
}


/// The text of a message made of literal parts around two numbers.
pub open spec fn two_number_text(a: Seq<char>, x: nat, b: Seq<char>, y: nat, c: Seq<char>) -> Seq<char> {
    a + decimal(x) + b + decimal(y) + c
}

fn two_number_message(a: &str, x: usize, b: &str, y: usize, c: &str) -> (r: String)
    ensures
        r@ == two_number_text(a@, x as nat, b@, y as nat, c@),
{
    let r = String::from_str(a).concat(decimal_text(x).as_str()).concat(b).concat(
        decimal_text(y).as_str(),
    ).concat(c);
    r
}

/// The message of an error, as the benchmark reports it. For an invalid
/// sample window the text after the field name is humantime's description
/// of the error.
pub open spec fn error_message(e: ConfigError) -> Seq<char> {
    match e {
        ConfigError::MissingRunLength => "Either total_requests or duration_seconds must be specified"@,
        ConfigError::ConflictingRunLength => "Only one of total_requests or duration_seconds can be specified"@,
        ConfigError::ZeroConcurrentRequests => "concurrent_requests must be greater than 0"@,
        ConfigError::NonPositiveQps => "qps must be greater than 0"@,
        ConfigError::ZeroWorkerThreads => "worker_threads must be greater than 0"@,
        ConfigError::TopLogprobsOutOfRange => "logprobs.top_logprobs must be between 1 and 20"@,
        ConfigError::ZeroEndpointMaxTokens => "endpoint.max_tokens must be greater than 0"@,
        ConfigError::EmptySaturationSlo => "saturation.slo must have at least one threshold (ttft, itl, or tpot with p50_ms, p99_ms, or p999_ms)"@,
        ConfigError::StepMultiplierTooSmall => "saturation.step_multiplier must be greater than 1.0"@,
        ConfigError::ZeroStartConcurrency => "saturation.start_concurrency must be at least 1"@,
        ConfigError::MaxConcurrencyBelowStart => "saturation.max_concurrency must be >= start_concurrency"@,
        ConfigError::ThroughputRatioOutOfRange => "saturation.min_throughput_ratio must be between 0.0 and 1.0"@,
        ConfigError::SyntheticWithoutMaxTokens => "Synthetic mode (file = \"synthetic\") requires endpoint.max_tokens to be set"@,
        ConfigError::MissingSyntheticSection => "Synthetic mode (file = \"synthetic\") requires [input.synthetic] configuration"@,
        ConfigError::ZeroPromptTokens => "input.synthetic.prompt_tokens must be greater than 0"@,
        ConfigError::ZeroPromptTokensStdev => "input.synthetic.prompt_tokens_stdev must be greater than 0 if specified"@,
        ConfigError::CommonPrefixRatioOutOfRange => "input.synthetic.common_prefix_sample_ratio must be between 0.0 and 1.0"@,
        ConfigError::PromptTokensMinTooLarge { min, prompt_tokens } => two_number_text(
            "input.synthetic.prompt_tokens_min ("@,
            min as nat,
            ") must be <= prompt_tokens ("@,
            prompt_tokens as nat,
            ")"@,
        ),
        ConfigError::PromptTokensMaxTooSmall { max, prompt_tokens } => two_number_text(
            "input.synthetic.prompt_tokens_max ("@,
            max as nat,
            ") must be >= prompt_tokens ("@,
            prompt_tokens as nat,
            ")"@,
        ),
        ConfigError::CommonPrefixTooLong { common_prefix_tokens, prompt_tokens } => two_number_text(
            "input.synthetic.common_prefix_tokens ("@,
            common_prefix_tokens as nat,
            ") cannot exceed prompt_tokens ("@,
            prompt_tokens as nat,
            ")"@,
        ),
        ConfigError::InvalidSampleWindow(_) => "saturation.sample_window: "@,
    }
}

impl ConfigError {
    /// The message of this error. For an invalid sample window it is
    /// `saturation.sample_window: ` followed by humantime's own text, which is
    /// not stated here.
    pub fn message(&self) -> (r: String)
        ensures
            !(self is InvalidSampleWindow) ==> r@ == error_message(*self),
            self is InvalidSampleWindow ==> r@.take(error_message(*self).len() as int)
                == error_message(*self),
    {
        match self {
            ConfigError::MissingRunLength => String::from_str("Either total_requests or duration_seconds must be specified"),
            ConfigError::ConflictingRunLength => String::from_str("Only one of total_requests or duration_seconds can be specified"),
            ConfigError::ZeroConcurrentRequests => String::from_str("concurrent_requests must be greater than 0"),
            ConfigError::NonPositiveQps => String::from_str("qps must be greater than 0"),
            ConfigError::ZeroWorkerThreads => String::from_str("worker_threads must be greater than 0"),
            ConfigError::TopLogprobsOutOfRange => String::from_str("logprobs.top_logprobs must be between 1 and 20"),
            ConfigError::ZeroEndpointMaxTokens => String::from_str("endpoint.max_tokens must be greater than 0"),
            ConfigError::EmptySaturationSlo => String::from_str("saturation.slo must have at least one threshold (ttft, itl, or tpot with p50_ms, p99_ms, or p999_ms)"),
            ConfigError::StepMultiplierTooSmall => String::from_str("saturation.step_multiplier must be greater than 1.0"),
            ConfigError::ZeroStartConcurrency => String::from_str("saturation.start_concurrency must be at least 1"),
            ConfigError::MaxConcurrencyBelowStart => String::from_str("saturation.max_concurrency must be >= start_concurrency"),
            ConfigError::ThroughputRatioOutOfRange => String::from_str("saturation.min_throughput_ratio must be between 0.0 and 1.0"),
            ConfigError::SyntheticWithoutMaxTokens => String::from_str("Synthetic mode (file = \"synthetic\") requires endpoint.max_tokens to be set"),
            ConfigError::MissingSyntheticSection => String::from_str("Synthetic mode (file = \"synthetic\") requires [input.synthetic] configuration"),
            ConfigError::ZeroPromptTokens => String::from_str("input.synthetic.prompt_tokens must be greater than 0"),
            ConfigError::ZeroPromptTokensStdev => String::from_str("input.synthetic.prompt_tokens_stdev must be greater than 0 if specified"),
            ConfigError::CommonPrefixRatioOutOfRange => String::from_str("input.synthetic.common_prefix_sample_ratio must be between 0.0 and 1.0"),
            ConfigError::PromptTokensMinTooLarge { min, prompt_tokens } => two_number_message(
                "input.synthetic.prompt_tokens_min (",
                *min,
                ") must be <= prompt_tokens (",
                *prompt_tokens,
                ")",
            ),
            ConfigError::PromptTokensMaxTooSmall { max, prompt_tokens } => two_number_message(
                "input.synthetic.prompt_tokens_max (",
                *max,
                ") must be >= prompt_tokens (",
                *prompt_tokens,
                ")",
            ),
            ConfigError::CommonPrefixTooLong { common_prefix_tokens, prompt_tokens } =>
                two_number_message(
                "input.synthetic.common_prefix_tokens (",
                *common_prefix_tokens,
                ") cannot exceed prompt_tokens (",
                *prompt_tokens,
                ")",
            ),
            ConfigError::InvalidSampleWindow(e) => {
                let head = String::from_str("saturation.sample_window: ");
                let detail = e.to_string();
                let r = head.concat(detail.as_str());
                assert(r@.take(error_message(*self).len() as int) =~= error_message(*self));
                r
            },
        }
    }
}

/// A threshold counts wherever it is set: when any one of `ttft`, `itl` and
/// `tpot` sets a `p50_ms`, `p99_ms` or `p999_ms`, thresholds are configured,
/// and they are not when none of the three sets any.
pub proof fn any_set_threshold_counts(t: SloThresholds)
    ensures
        t.ttft matches Some(p) && (p.p50_ms is Some || p.p99_ms is Some || p.p999_ms is Some)
            ==> t.any_configured(),
        t.itl matches Some(p) && (p.p50_ms is Some || p.p99_ms is Some || p.p999_ms is Some)
            ==> t.any_configured(),
        t.tpot matches Some(p) && (p.p50_ms is Some || p.p99_ms is Some || p.p999_ms is Some)
            ==> t.any_configured(),
        (t.ttft matches Some(p) ==> p.p50_ms is None && p.p99_ms is None && p.p999_ms is None)
            && (t.itl matches Some(p) ==> p.p50_ms is None && p.p99_ms is None && p.p999_ms is None)
            && (t.tpot matches Some(p) ==> p.p50_ms is None && p.p99_ms is None && p.p999_ms is None)
            ==> !t.any_configured(),
{
}

/// The common prefix may take the whole prompt: validation reports
/// `CommonPrefixTooLong` only for a synthetic section whose
/// `common_prefix_tokens` exceeds its `prompt_tokens`, with those two numbers,
/// and never when `common_prefix_tokens <= prompt_tokens`.
pub proof fn common_prefix_may_fill_prompt(c: Config, window: Result<(), humantime::DurationError>)
    ensures
        validation_outcome(c, window) matches Err(
            ConfigError::CommonPrefixTooLong { common_prefix_tokens: a, prompt_tokens: b },
        ) ==> c.input.synthetic matches Some(s) && s.common_prefix_tokens == a
            && s.prompt_tokens == b && a > b,
        c.input.synthetic matches Some(s) && s.common_prefix_tokens <= s.prompt_tokens
            ==> !(validation_outcome(c, window) matches Err(
            ConfigError::CommonPrefixTooLong { .. },
        )),
{
}

} // verus!
