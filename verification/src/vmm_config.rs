//! Stateless configuration objects for the rate limiter and the logger, and their
//! conversions to and from the live objects.

use crate::rate_limiter::{
    new_bucket, opt_view, BucketUpdate, BucketUpdateView, RateLimiter, TokenBucket,
    TokenBucketView,
};
use std::str::FromStr;
use vstd::prelude::*;
use vstd::string::StringSliceAdditionalSpecFns;

verus! {

/// A public-facing, stateless structure, holding all the data needed to create a
/// [`TokenBucket`].
#[derive(Clone, Copy, Debug, Default, PartialEq, Eq)]
pub struct TokenBucketConfig {
    /// See the size of a token bucket.
    pub size: u64,
    /// See the one-time burst of a token bucket.
    pub one_time_burst: Option<u64>,
    /// See the refill time of a token bucket.
    pub refill_time: u64,
}

/// The configuration describing a bucket: its size, its initial one-time burst (absent when
/// zero) and its refill time.
pub open spec fn bucket_config(b: TokenBucketView) -> TokenBucketConfig {
    TokenBucketConfig {
        size: b.size,
        one_time_burst: if b.initial_one_time_burst == 0 {
            None
        } else {
            Some(b.initial_one_time_burst)
        },
        refill_time: b.refill_time,
    }
}

/// The configuration describing an optional bucket.
pub open spec fn opt_bucket_config(b: Option<TokenBucketView>) -> Option<TokenBucketConfig> {
    match b {
        Some(v) => Some(bucket_config(v)),
        None => None,
    }
}

/// The one-time burst a configuration asks for, zero when it asks for none.
pub open spec fn burst_or_zero(burst: Option<u64>) -> u64 {
    match burst {
        Some(v) => v,
        None => 0,
    }
}

impl<'a> From<&'a TokenBucket> for TokenBucketConfig {
    fn from(tb: &'a TokenBucket) -> (r: Self) {
        let one_time_burst = match tb.initial_one_time_burst() {
            0 => None,
            v => Some(v),
        };
        TokenBucketConfig { size: tb.capacity(), one_time_burst, refill_time: tb.refill_time_ms() }
    }
}

impl<'a> vstd::std_specs::convert::FromSpecImpl<&'a TokenBucket> for TokenBucketConfig {
    open spec fn obeys_from_spec() -> bool {
        true
    }

    open spec fn from_spec(tb: &'a TokenBucket) -> TokenBucketConfig {
        bucket_config(tb@)
    }
}

/// A public-facing, stateless structure, holding all the data needed to create a
/// [`RateLimiter`].
#[derive(Clone, Copy, Debug, Default, PartialEq, Eq)]
pub struct RateLimiterConfig {
    /// Data used to initialize the bandwidth bucket.
    pub bandwidth: Option<TokenBucketConfig>,
    /// Data used to initialize the ops bucket.
    pub ops: Option<TokenBucketConfig>,
}

/// A public-facing, stateless structure, specifying rate limiter updates.
#[derive(Debug)]
pub struct RateLimiterUpdate {
    /// Possible update to the bandwidth bucket.
    pub bandwidth: BucketUpdate,
    /// Possible update to the ops bucket.
    pub ops: BucketUpdate,
}

/// The bucket an optional configuration builds: none without a configuration.
pub open spec fn configured_bucket(cfg: Option<TokenBucketConfig>) -> Option<TokenBucketView> {
    match cfg {
        Some(c) => new_bucket(c.size, burst_or_zero(c.one_time_burst), c.refill_time),
        None => None,
    }
}

/// The update a bucket configuration asks for: none without a configuration, a disabled
/// bucket when the configuration is unusable, else a fresh bucket.
pub open spec fn bucket_update_of(cfg: Option<TokenBucketConfig>) -> BucketUpdateView {
    match cfg {
        None => BucketUpdateView::NoUpdate,
        Some(c) => match new_bucket(c.size, burst_or_zero(c.one_time_burst), c.refill_time) {
            Some(b) => BucketUpdateView::Update(b),
            None => BucketUpdateView::Disabled,
        },
    }
}

/// Translates an optional bucket configuration into the corresponding bucket update.
pub fn get_bucket_update(tb_cfg: &Option<TokenBucketConfig>) -> (r: BucketUpdate)
    ensures
        r@ == bucket_update_of(*tb_cfg),
{
    match tb_cfg {
        // There is data to update.
        Some(tb_cfg) => {
            let burst = match tb_cfg.one_time_burst {
                Some(v) => v,
                None => 0,
            };
            match TokenBucket::new(tb_cfg.size, burst, tb_cfg.refill_time) {
                // Updated active rate-limiter.
                Some(tb) => BucketUpdate::Update(tb),
                // Updated/deactivated rate-limiter.
                None => BucketUpdate::Disabled,
            }
        },
        // No update to the rate-limiter.
        None => BucketUpdate::NoUpdate,
    }
}

impl RateLimiterUpdate {
    /// The updates an optional limiter configuration asks for; without a configuration
    /// neither bucket is updated.
    pub fn from_config(cfg: Option<RateLimiterConfig>) -> (r: Self)
        ensures
            match cfg {
                Some(c) => r.bandwidth@ == bucket_update_of(c.bandwidth) && r.ops@
                    == bucket_update_of(c.ops),
                None => r.bandwidth@ == BucketUpdateView::NoUpdate && r.ops@
                    == BucketUpdateView::NoUpdate,
            },
    {
        match cfg {
            Some(cfg) => RateLimiterUpdate {
                bandwidth: get_bucket_update(&cfg.bandwidth),
                ops: get_bucket_update(&cfg.ops),
            },
            // No update to the rate-limiter.
            None => RateLimiterUpdate { bandwidth: BucketUpdate::NoUpdate, ops: BucketUpdate::NoUpdate },
        }
    }
}

impl RateLimiterConfig {
    /// Builds the rate limiter this configuration describes; a missing bucket
    /// configuration disables limiting for its token type. Fails only if the limiter's
    /// timer cannot be created.
    pub fn try_into(self) -> (r: Result<RateLimiter, std::io::Error>)
        ensures
            r matches Ok(l) ==> {
                &&& !l@.blocked
                &&& l@.bandwidth == configured_bucket(self.bandwidth)
                &&& l@.ops == configured_bucket(self.ops)
            },
    {
        let bw = match self.bandwidth {
            Some(c) => c,
            None => TokenBucketConfig { size: 0, one_time_burst: None, refill_time: 0 },
        };
        let ops = match self.ops {
            Some(c) => c,
            None => TokenBucketConfig { size: 0, one_time_burst: None, refill_time: 0 },
        };
        let bw_burst = match bw.one_time_burst {
            Some(v) => v,
            None => 0,
        };
        let ops_burst = match ops.one_time_burst {
            Some(v) => v,
            None => 0,
        };
        RateLimiter::new(bw.size, bw_burst, bw.refill_time, ops.size, ops_burst, ops.refill_time)
    }

    /// The configuration itself when it configures at least one bucket, else `None`.
    pub fn into_option(self) -> (r: Option<RateLimiterConfig>)
        ensures
            r == (if self.bandwidth is Some || self.ops is Some {
                Some(self)
            } else {
                None
            }),
    {
        if self.bandwidth.is_some() || self.ops.is_some() {
            Some(self)
        } else {
            None
        }
    }
}

impl<'a> From<&'a RateLimiter> for RateLimiterConfig {
    fn from(rl: &'a RateLimiter) -> (r: Self) {
        let bandwidth = match rl.bandwidth() {
            Some(tb) => Some(TokenBucketConfig::from(tb)),
            None => None,
        };
        let ops = match rl.ops() {
            Some(tb) => Some(TokenBucketConfig::from(tb)),
            None => None,
        };
        RateLimiterConfig { bandwidth, ops }
    }
}

impl<'a> vstd::std_specs::convert::FromSpecImpl<&'a RateLimiter> for RateLimiterConfig {
    open spec fn obeys_from_spec() -> bool {
        true
    }

    open spec fn from_spec(rl: &'a RateLimiter) -> RateLimiterConfig {
        RateLimiterConfig {
            bandwidth: opt_bucket_config(rl@.bandwidth),
            ops: opt_bucket_config(rl@.ops),
        }
    }
}


/// A bucket configuration that builds a bucket and states its burst as it will be read
/// back (no burst rather than a zero burst).
pub open spec fn is_canonical(c: TokenBucketConfig) -> bool {
    &&& c.size > 0
    &&& c.refill_time > 0
    &&& c.refill_time * crate::rate_limiter::NANOSEC_IN_ONE_MILLISEC <= u64::MAX
    &&& c.one_time_burst != Some(0u64)
}

/// The configuration read back from a bucket is the canonical configuration it was built
/// from.
pub proof fn lemma_bucket_config_round_trip(c: TokenBucketConfig)
    requires
        is_canonical(c),
    ensures
        configured_bucket(Some(c)) matches Some(b) && bucket_config(b) == c,
{
}

/// The configuration read back from a rate limiter is the configuration it was built from,
/// when each bucket configuration present is canonical.
pub proof fn lemma_limiter_config_round_trip(c: RateLimiterConfig)
    requires
        c.bandwidth matches Some(b) ==> is_canonical(b),
        c.ops matches Some(o) ==> is_canonical(o),
    ensures
        opt_bucket_config(configured_bucket(c.bandwidth)) == c.bandwidth,
        opt_bucket_config(configured_bucket(c.ops)) == c.ops,
{
}


// ---------------------------------------------------------------------------------------------
// Logger configuration
// ---------------------------------------------------------------------------------------------

#[verifier::external_type_specification]
#[verifier::external_body]
pub struct ExParseLevelError(log::ParseLevelError);

/// Logging level, mirroring the levels of the `log` crate, with `Warn` as the default and
/// accepting `WARNING` and `Warning` as names of `Warn`.
#[derive(Clone, Copy, Debug, PartialEq, Eq)]
pub enum Level {
    /// Designates very serious errors.
    Error,
    /// Designates hazardous situations.
    Warn,
    /// Designates useful information.
    Info,
    /// Designates lower priority information.
    Debug,
    /// Designates very low priority, often extremely verbose, information.
    Trace,
}

impl Default for Level {
    fn default() -> (r: Self)
        ensures
            r == Level::Warn,
    {
        Level::Warn
    }
}

/// The lower-case form of an ASCII byte; other bytes are unchanged.
pub open spec fn ascii_lower(b: u8) -> u8 {
    if 65 <= b <= 90 {
        (b + 32) as u8
    } else {
        b
    }
}

/// Two byte strings are equal up to ASCII case.
pub open spec fn eq_ignore_ascii_case(a: Seq<u8>, b: Seq<u8>) -> bool {
    &&& a.len() == b.len()
    &&& forall|i: int| 0 <= i < a.len() ==> ascii_lower(#[trigger] a[i]) == ascii_lower(b[i])
}

/// The upper-case name of a level, as bytes.
pub open spec fn level_name(l: Level) -> Seq<u8> {
    match l {
        Level::Error => seq![69u8, 82, 82, 79, 82],
        Level::Warn => seq![87u8, 65, 82, 78],
        Level::Info => seq![73u8, 78, 70, 79],
        Level::Debug => seq![68u8, 69, 66, 85, 71],
        Level::Trace => seq![84u8, 82, 65, 67, 69],
    }
}

/// The level whose name equals `bytes` up to ASCII case, if any.
pub open spec fn level_by_name(bytes: Seq<u8>) -> Option<Level> {
    if eq_ignore_ascii_case(bytes, level_name(Level::Error)) {
        Some(Level::Error)
    } else if eq_ignore_ascii_case(bytes, level_name(Level::Warn)) {
        Some(Level::Warn)
    } else if eq_ignore_ascii_case(bytes, level_name(Level::Info)) {
        Some(Level::Info)
    } else if eq_ignore_ascii_case(bytes, level_name(Level::Debug)) {
        Some(Level::Debug)
    } else if eq_ignore_ascii_case(bytes, level_name(Level::Trace)) {
        Some(Level::Trace)
    } else {
        None
    }
}

/// The level a string names: exactly `ERROR`, `WARNING`, `Warning`, `INFO`, `DEBUG` or
/// `TRACE`, or else a level name up to ASCII case.
pub open spec fn level_from_bytes(bytes: Seq<u8>) -> Option<Level> {
    if bytes == seq![69u8, 82, 82, 79, 82] {
        Some(Level::Error)
    } else if bytes == seq![87u8, 65, 82, 78, 73, 78, 71] || bytes == seq![
        87u8,
        97,
        114,
        110,
        105,
        110,
        103,
    ] {
        Some(Level::Warn)
    } else if bytes == seq![73u8, 78, 70, 79] {
        Some(Level::Info)
    } else if bytes == seq![68u8, 69, 66, 85, 71] {
        Some(Level::Debug)
    } else if bytes == seq![84u8, 82, 65, 67, 69] {
        Some(Level::Trace)
    } else {
        level_by_name(bytes)
    }
}

/// A string parses as the level it names up to ASCII case, whether it is one of the
/// spellings recognised directly or is handed to the logging crate: the explicit names agree
/// with the level names. Besides those, `WARNING` and `Warning` parse as `Warn`, and nothing
/// else parses.
pub proof fn lemma_level_names_parse(bytes: Seq<u8>)
    ensures
        level_by_name(bytes) is Some ==> level_from_bytes(bytes) == level_by_name(bytes),
        level_from_bytes(bytes) == (if bytes == seq![87u8, 65, 82, 78, 73, 78, 71] || bytes
            == seq![87u8, 97, 114, 110, 105, 110, 103] {
            Some(Level::Warn)
        } else {
            level_by_name(bytes)
        }),
{
    let error = seq![69u8, 82, 82, 79, 82];
    let warning_upper = seq![87u8, 65, 82, 78, 73, 78, 71];
    let warning_title = seq![87u8, 97, 114, 110, 105, 110, 103];
    let info = seq![73u8, 78, 70, 79];
    let debug = seq![68u8, 69, 66, 85, 71];
    let trace = seq![84u8, 82, 65, 67, 69];
    if bytes == error {
        assert(eq_ignore_ascii_case(bytes, level_name(Level::Error)));
    } else if bytes == warning_upper || bytes == warning_title {
        assert(level_by_name(bytes) is None);
    } else if bytes == info {
        assert(!eq_ignore_ascii_case(bytes, level_name(Level::Warn))) by {
            assert(ascii_lower(bytes[0]) != ascii_lower(level_name(Level::Warn)[0]));
        }
        assert(eq_ignore_ascii_case(bytes, level_name(Level::Info)));
    } else if bytes == debug {
        assert(!eq_ignore_ascii_case(bytes, level_name(Level::Error))) by {
            assert(ascii_lower(bytes[0]) != ascii_lower(level_name(Level::Error)[0]));
        }
        assert(eq_ignore_ascii_case(bytes, level_name(Level::Debug)));
    } else if bytes == trace {
        assert(!eq_ignore_ascii_case(bytes, level_name(Level::Error))) by {
            assert(ascii_lower(bytes[0]) != ascii_lower(level_name(Level::Error)[0]));
        }
        assert(!eq_ignore_ascii_case(bytes, level_name(Level::Debug))) by {
            assert(ascii_lower(bytes[0]) != ascii_lower(level_name(Level::Debug)[0]));
        }
        assert(eq_ignore_ascii_case(bytes, level_name(Level::Trace)));
    }
}

/// Calls `<log::Level as FromStr>::from_str` and maps the level to its counterpart. The
/// `log` crate compares the string, up to ASCII case, with the names `ERROR`, `WARN`,
/// `INFO`, `DEBUG` and `TRACE`, and errs when none matches.
#[verifier::external_body]
fn log_level_from_str(s: &str) -> (r: Result<Level, log::ParseLevelError>)
    ensures
        match r {
            Ok(l) => level_by_name(s.spec_bytes()) == Some(l),
            Err(_) => level_by_name(s.spec_bytes()) is None,
        },
{
    match log::Level::from_str(s) {
        Ok(log::Level::Error) => Ok(Level::Error),
        Ok(log::Level::Warn) => Ok(Level::Warn),
        Ok(log::Level::Info) => Ok(Level::Info),
        Ok(log::Level::Debug) => Ok(Level::Debug),
        Ok(log::Level::Trace) => Ok(Level::Trace),
        Err(e) => Err(e),
    }
}

/// Whether two byte strings are equal.
fn bytes_equal(a: &[u8], b: &[u8]) -> (r: bool)
    ensures
        r == (a@ == b@),
{
    if a.len() != b.len() {
        return false;
    }
    let mut i: usize = 0;
    while i < a.len()
        invariant
            0 <= i <= a.len(),
            a.len() == b.len(),
            forall|j: int| 0 <= j < i ==> a@[j] == b@[j],
        decreases a.len() - i,
    {
        if a[i] != b[i] {
            return false;
        }
        i = i + 1;
    }
    assert(a@ =~= b@);
    true
}

impl Level {
    /// Parses a level: `ERROR`, `WARNING`, `Warning`, `INFO`, `DEBUG` and `TRACE` exactly,
    /// or else any level name up to ASCII case; errs on any other string.
    pub fn parse(s: &str) -> (r: Result<Level, log::ParseLevelError>)
        ensures
            match r {
                Ok(l) => level_from_bytes(s.spec_bytes()) == Some(l),
                Err(_) => level_from_bytes(s.spec_bytes()) is None,
            },
    {
        let b = s.as_bytes();
        let error: [u8; 5] = [69u8, 82, 82, 79, 82];
        let warning_upper: [u8; 7] = [87u8, 65, 82, 78, 73, 78, 71];
        let warning_title: [u8; 7] = [87u8, 97, 114, 110, 105, 110, 103];
        let info: [u8; 4] = [73u8, 78, 70, 79];
        let debug: [u8; 5] = [68u8, 69, 66, 85, 71];
        let trace: [u8; 5] = [84u8, 82, 65, 67, 69];
        assert(error@ == seq![69u8, 82, 82, 79, 82]);
        assert(warning_upper@ == seq![87u8, 65, 82, 78, 73, 78, 71]);
        assert(warning_title@ == seq![87u8, 97, 114, 110, 105, 110, 103]);
        assert(info@ == seq![73u8, 78, 70, 79]);
        assert(debug@ == seq![68u8, 69, 66, 85, 71]);
        assert(trace@ == seq![84u8, 82, 65, 67, 69]);
        if bytes_equal(b, error.as_slice()) {
            Ok(Level::Error)
        } else if bytes_equal(b, warning_upper.as_slice()) || bytes_equal(b, warning_title.as_slice()) {
            Ok(Level::Warn)
        } else if bytes_equal(b, info.as_slice()) {
            Ok(Level::Info)
        } else if bytes_equal(b, debug.as_slice()) {
            Ok(Level::Debug)
        } else if bytes_equal(b, trace.as_slice()) {
            Ok(Level::Trace)
        } else {
            log_level_from_str(s)
        }
    }
}

impl FromStr for Level {
    type Err = log::ParseLevelError;

    fn from_str(s: &str) -> (r: Result<Self, Self::Err>)
        ensures
            match r {
                Ok(l) => level_from_bytes(s.spec_bytes()) == Some(l),
                Err(_) => level_from_bytes(s.spec_bytes()) is None,
            },
    {
        Level::parse(s)
    }
}

/// Strongly typed structure used to describe the logger.
#[derive(Clone, Debug, PartialEq, Eq)]
pub struct LoggerConfig {
    /// Named pipe or file used as output for logs.
    pub log_path: Option<String>,
    /// The level of the Logger.
    pub level: Option<Level>,
    /// When enabled, the logger will append to the output the severity of the log entry.
    pub show_level: Option<bool>,
    /// When enabled, the logger will append the origin of the log entry.
    pub show_log_origin: Option<bool>,
    /// When enabled, the logger will use the default formatter of the tracing crate.
    pub new_format: Option<bool>,
    /// The profile file to output.
    pub profile_file: Option<String>,
}

/// The settings of the logger that its configuration decides.
#[derive(Clone, Copy, Debug, PartialEq, Eq)]
pub struct LoggerSettings {
    /// The most verbose level logged.
    pub level: Level,
    /// Whether log lines show their level.
    pub show_level: bool,
    /// Whether log lines show their origin.
    pub show_log_origin: bool,
    /// Whether the default formatter of the logging framework is used.
    pub new_format: bool,
}

/// The settings before any configuration: level `Warn`, no level, no origin, the own format.
pub open spec fn default_settings() -> LoggerSettings {
    LoggerSettings { level: Level::Warn, show_level: false, show_log_origin: false, new_format: false }
}

/// The settings after `config` is applied to `current`: each setting the configuration gives
/// replaces the current one; the others stay.
pub open spec fn settings_after(config: LoggerConfig, current: LoggerSettings) -> LoggerSettings {
    LoggerSettings {
        level: match config.level {
            Some(l) => l,
            None => current.level,
        },
        show_level: match config.show_level {
            Some(b) => b,
            None => current.show_level,
        },
        show_log_origin: match config.show_log_origin {
            Some(b) => b,
            None => current.show_log_origin,
        },
        new_format: match config.new_format {
            Some(b) => b,
            None => current.new_format,
        },
    }
}

/// The settings the logger starts with when set up with `config`: the settings it gives, the
/// defaults for the others.
pub open spec fn initial_settings(config: LoggerConfig) -> LoggerSettings {
    LoggerSettings {
        level: match config.level {
            Some(l) => l,
            None => Level::Warn,
        },
        show_level: match config.show_level {
            Some(b) => b,
            None => false,
        },
        show_log_origin: match config.show_log_origin {
            Some(b) => b,
            None => false,
        },
        new_format: match config.new_format {
            Some(b) => b,
            None => false,
        },
    }
}

impl LoggerConfig {
    /// The settings the logger starts with when set up with this configuration (see
    /// [`initial_settings`]).
    pub fn init_settings(&self) -> (r: LoggerSettings)
        ensures
            r == initial_settings(*self),
    {
        LoggerSettings {
            level: match self.level {
                Some(l) => l,
                None => Level::default(),
            },
            show_level: match self.show_level {
                Some(b) => b,
                None => false,
            },
            show_log_origin: match self.show_log_origin {
                Some(b) => b,
                None => false,
            },
            new_format: match self.new_format {
                Some(b) => b,
                None => false,
            },
        }
    }

    /// The settings after this configuration updates `current` (see [`settings_after`]).
    pub fn update_settings(&self, current: LoggerSettings) -> (r: LoggerSettings)
        ensures
            r == settings_after(*self, current),
    {
        LoggerSettings {
            level: match self.level {
                Some(l) => l,
                None => current.level,
            },
            show_level: match self.show_level {
                Some(b) => b,
                None => current.show_level,
            },
            show_log_origin: match self.show_log_origin {
                Some(b) => b,
                None => current.show_log_origin,
            },
            new_format: match self.new_format {
                Some(b) => b,
                None => current.new_format,
            },
        }
    }
}

/// Setting the logger up with a configuration gives the settings that updating the default
/// settings with it gives; updating twice with a configuration is updating once; and a
/// configuration that gives no setting changes nothing.
pub proof fn lemma_logger_settings(config: LoggerConfig, current: LoggerSettings)
    ensures
        initial_settings(config) == settings_after(config, default_settings()),
        settings_after(config, settings_after(config, current)) == settings_after(config, current),
        config.level is None && config.show_level is None && config.show_log_origin is None
            && config.new_format is None ==> settings_after(config, current) == current,
{
}

// ---------------------------------------------------------------------------------------------
// Log lines
// ---------------------------------------------------------------------------------------------

/// The name under which a log line shows the level `level`.
pub open spec fn level_label(level: Level) -> Seq<char> {
    match level {
        Level::Error => seq!['E', 'R', 'R', 'O', 'R'],
        Level::Warn => seq!['W', 'A', 'R', 'N'],
        Level::Info => seq!['I', 'N', 'F', 'O'],
        Level::Debug => seq!['D', 'E', 'B', 'U', 'G'],
        Level::Trace => seq!['T', 'R', 'A', 'C', 'E'],
    }
}

/// The character of the decimal digit `d`.
pub open spec fn digit_char(d: nat) -> char {
    (d + 48) as char
}

/// The decimal writing of `n`, most significant digit first, without leading zeros.
pub open spec fn decimal(n: nat) -> Seq<char>
    decreases n,
{
    if n < 10 {
        seq![digit_char(n)]
    } else {
        decimal(n / 10).push(digit_char(n % 10))
    }
}

/// The thread part of a log line: the thread's name, or `-` when it has none.
pub open spec fn thread_part(thread_name: Option<Seq<char>>) -> Seq<char> {
    match thread_name {
        Some(t) => t,
        None => seq!['-'],
    }
}

/// The level part of a log line: a colon and the level when levels are shown, else nothing.
pub open spec fn level_part(show_level: bool, level: Level) -> Seq<char> {
    if show_level {
        seq![':'] + level_label(level)
    } else {
        Seq::empty()
    }
}

/// The origin part of a log line: when origins are shown, a colon and the source file
/// (`unknown` when not known), then a colon and the line when it is known; else nothing.
pub open spec fn origin_part(show_log_origin: bool, file: Option<Seq<char>>, line: Option<u32>) -> Seq<
    char,
> {
    if show_log_origin {
        let file_part = match file {
            Some(f) => f,
            None => seq!['u', 'n', 'k', 'n', 'o', 'w', 'n'],
        };
        let line_part = match line {
            Some(l) => seq![':'] + decimal(l as nat),
            None => Seq::empty(),
        };
        seq![':'] + file_part + line_part
    } else {
        Seq::empty()
    }
}

/// The head of a log line in the own format, before the event's fields: the time, then in
/// brackets the instance ID, the thread part, the level part and the origin part, the first
/// two separated by a colon; then a space.
pub open spec fn log_line_head(
    time: Seq<char>,
    instance_id: Seq<char>,
    thread_name: Option<Seq<char>>,
    show_level: bool,
    level: Level,
    show_log_origin: bool,
    file: Option<Seq<char>>,
    line: Option<u32>,
) -> Seq<char> {
    time + seq![' ', '['] + instance_id + seq![':'] + thread_part(thread_name) + level_part(
        show_level,
        level,
    ) + origin_part(show_log_origin, file, line) + seq![']', ' ']
}

/// The view of an optional string.
pub open spec fn opt_str_view(s: Option<&str>) -> Option<Seq<char>> {
    match s {
        Some(t) => Some(t@),
        None => None,
    }
}

/// Appends the thread part of a log line to `s`.
fn append_thread(s: &mut String, thread_name: Option<&str>)
    ensures
        final(s)@ == old(s)@ + thread_part(opt_str_view(thread_name)),
{
    proof {
        reveal_strlit("-");
    }
    match thread_name {
        Some(t) => s.append(t),
        None => s.append("-"),
    }
}

/// Appends the level part of a log line to `s`.
fn append_level(s: &mut String, show_level: bool, level: Level)
    ensures
        final(s)@ == old(s)@ + level_part(show_level, level),
{
    proof {
        reveal_strlit(":");
    }
    if show_level {
        s.append(":");
        s.append(level_str(level));
        assert(s@ =~= old(s)@ + level_part(show_level, level));
    } else {
        assert(s@ =~= old(s)@ + level_part(show_level, level));
    }
}

/// Appends the origin part of a log line to `s`.
fn append_origin(s: &mut String, show_log_origin: bool, file: Option<&str>, line: Option<u32>)
    ensures
        final(s)@ == old(s)@ + origin_part(show_log_origin, opt_str_view(file), line),
{
    proof {
        reveal_strlit(":");
        reveal_strlit("unknown");
    }
    if show_log_origin {
        s.append(":");
        match file {
            Some(f) => s.append(f),
            None => s.append("unknown"),
        }
        if let Some(l) = line {
            s.append(":");
            append_decimal(s, l);
        }
        assert(s@ =~= old(s)@ + origin_part(show_log_origin, opt_str_view(file), line));
    } else {
        assert(s@ =~= old(s)@ + origin_part(show_log_origin, opt_str_view(file), line));
    }
}

/// The name of `level` as a log line shows it.
pub fn level_str(level: Level) -> (r: &'static str)
    ensures
        r@ == level_label(level),
{
    match level {
        Level::Error => {
            proof {
                reveal_strlit("ERROR");
            }
            "ERROR"
        },
        Level::Warn => {
            proof {
                reveal_strlit("WARN");
            }
            "WARN"
        },
        Level::Info => {
            proof {
                reveal_strlit("INFO");
            }
            "INFO"
        },
        Level::Debug => {
            proof {
                reveal_strlit("DEBUG");
            }
            "DEBUG"
        },
        Level::Trace => {
            proof {
                reveal_strlit("TRACE");
            }
            "TRACE"
        },
    }
}

/// The one-character string of the decimal digit `d`.
fn digit_str(d: u32) -> (r: &'static str)
    requires
        d < 10,
    ensures
        r@ == seq![digit_char(d as nat)],
{
    if d == 0 {
        proof { reveal_strlit("0"); }
        "0"
    } else if d == 1 {
        proof { reveal_strlit("1"); }
        "1"
    } else if d == 2 {
        proof { reveal_strlit("2"); }
        "2"
    } else if d == 3 {
        proof { reveal_strlit("3"); }
        "3"
    } else if d == 4 {
        proof { reveal_strlit("4"); }
        "4"
    } else if d == 5 {
        proof { reveal_strlit("5"); }
        "5"
    } else if d == 6 {
        proof { reveal_strlit("6"); }
        "6"
    } else if d == 7 {
        proof { reveal_strlit("7"); }
        "7"
    } else if d == 8 {
        proof { reveal_strlit("8"); }
        "8"
    } else {
        proof { reveal_strlit("9"); }
        "9"
    }
}

/// Appends the decimal writing of `n` to `s`.
pub fn append_decimal(s: &mut String, n: u32)
    ensures
        final(s)@ == old(s)@ + decimal(n as nat),
    decreases n,
{
    if n >= 10 {
        append_decimal(s, n / 10);
    }
    s.append(digit_str(n % 10));
    proof {
        assert(old(s)@ + decimal(n as nat) =~= if n >= 10 {
            old(s)@ + decimal((n / 10) as nat) + seq![digit_char((n % 10) as nat)]
        } else {
            old(s)@ + seq![digit_char((n % 10) as nat)]
        });
    }
}

/// Writes the head of a log line in the own format (see [`log_line_head`]).
pub fn log_line_prefix(
    time: &str,
    instance_id: &str,
    thread_name: Option<&str>,
    show_level: bool,
    level: Level,
    show_log_origin: bool,
    file: Option<&str>,
    line: Option<u32>,
) -> (r: String)
    ensures
        r@ == log_line_head(
            time@,
            instance_id@,
            opt_str_view(thread_name),
            show_level,
            level,
            show_log_origin,
            opt_str_view(file),
            line,
        ),
{
    proof {
        reveal_strlit(" [");
        reveal_strlit(":");
        reveal_strlit("] ");
    }
    let mut s = time.to_owned();
    s.append(" [");
    s.append(instance_id);
    s.append(":");
    append_thread(&mut s, thread_name);
    append_level(&mut s, show_level, level);
    append_origin(&mut s, show_log_origin, file, line);
    s.append("] ");
    s
}

} // verus!
