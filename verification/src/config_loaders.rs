//! Configuration from `PODOS_*` environment variables and from INI
//! key/value pairs (flat `key=value`, no sections).
//!
//! Both take the pairs in order; where a setting is given more than once,
//! the last accepted value counts. Numeric durations are whole seconds.
//! Values that do not parse, and zero durations, leave the setting as it
//! was. The backoff multipliers are floating-point factors: the loaders
//! classify their keys (see [`setting_of_key`]) and leave the values to the
//! caller.

use vstd::prelude::*;

use crate::config::Config;
use crate::text::{
    ascii_lower, chars_eq_str, chars_of, lower_slice, lower_text, parse_decimal_u64,
    parse_unsigned, str_eq, trim_slice, trimmed,
};

verus! {

/// Where the pairs come from: the environment or an INI file.
#[derive(Debug, Clone, Copy, PartialEq, Eq, Structural)]
pub enum Source {
    Env,
    Ini,
}

/// The settings the loaders recognise.
#[derive(Debug, Clone, Copy, PartialEq, Eq, Structural)]
pub enum Setting {
    Host,
    Port,
    Agent,
    Client,
    Passcode,
    StreamMessages,
    ConcurrentMode,
    DialTimeout,
    SendTimeout,
    ReceiveTimeout,
    LogLevel,
    ReconnectEnabled,
    ReconnectMaxRetries,
    ReconnectInitialBackoff,
    ReconnectBackoffMultiplier,
    ReconnectMaxBackoff,
    RetryCount,
    RetryBackoff,
    RetryBackoffMultiplier,
}

// ── Value grammars ───────────────────────────────────────────────────────────

/// Upper case as far as it can give an ASCII letter: ASCII letters, `ſ`
/// (to `S`) and `ı` (to `I`). Every other character either keeps its case
/// here or has an upper case that is not a single ASCII letter, so for
/// comparisons with ASCII words this agrees with `str::to_uppercase`.
pub open spec fn upper_char(c: char) -> char {
    if 'a' <= c && c <= 'z' {
        ((c as u32) - 32) as char
    } else if c == '\u{17f}' {
        'S'
    } else if c == '\u{131}' {
        'I'
    } else {
        c
    }
}

/// Lower case as far as it can give an ASCII letter: ASCII letters and the
/// Kelvin sign (to `k`); agrees with `str::to_lowercase` for comparisons
/// with ASCII words.
pub open spec fn key_char(c: char) -> char {
    if c == '\u{212a}' {
        'k'
    } else {
        ascii_lower(c)
    }
}

/// An INI key as it is compared with the setting names: trimmed and in
/// lower case.
pub open spec fn key_form(k: Seq<char>) -> Seq<char> {
    trimmed(k).map_values(|c: char| key_char(c))
}

/// INI truth: `Y`, `YES`, `TRUE` or `1`, trimmed, in any case.
pub open spec fn bool_ini_spec(v: Seq<char>) -> bool {
    let u = trimmed(v).map_values(|c: char| upper_char(c));
    u == "Y"@ || u == "YES"@ || u == "TRUE"@ || u == "1"@
}

/// Environment truth: `true`, `1`, `yes` or `y`, trimmed, in any case.
pub open spec fn bool_env_spec(v: Seq<char>) -> bool {
    let l = lower_text(trimmed(v));
    l == "true"@ || l == "1"@ || l == "yes"@ || l == "y"@
}

/// The trimmed text read as a `u64` (an optional `+`, then digits).
pub open spec fn u64_spec(v: Seq<char>) -> Option<u64> {
    match parse_unsigned(trimmed(v), 10) {
        Some(n) => if n <= u64::MAX {
            Some(n as u64)
        } else {
            None
        },
        None => None,
    }
}

/// The number in `v`, or 0.
pub open spec fn u64_or_zero(v: Seq<char>) -> u64 {
    match u64_spec(v) {
        Some(n) => n,
        None => 0,
    }
}

/// A duration of `v` seconds, in milliseconds.
pub open spec fn secs_ms(v: Seq<char>) -> u128 {
    (u64_or_zero(v) * 1000) as u128
}

/// Truth as the source spells it.
pub open spec fn bool_value(src: Source, v: Seq<char>) -> bool {
    match src {
        Source::Env => bool_env_spec(v),
        Source::Ini => bool_ini_spec(v),
    }
}

// ── Keys ─────────────────────────────────────────────────────────────────────

/// The setting an INI key names.
pub open spec fn ini_setting(k: Seq<char>) -> Option<Setting> {
    let n = key_form(k);
    if n == "host"@ {
        Some(Setting::Host)
    } else if n == "port"@ {
        Some(Setting::Port)
    } else if n == "agent"@ {
        Some(Setting::Agent)
    } else if n == "client"@ {
        Some(Setting::Client)
    } else if n == "passcode"@ {
        Some(Setting::Passcode)
    } else if n == "stream_messages"@ {
        Some(Setting::StreamMessages)
    } else if n == "concurrent_mode"@ {
        Some(Setting::ConcurrentMode)
    } else if n == "dial_timeout"@ {
        Some(Setting::DialTimeout)
    } else if n == "send_timeout"@ {
        Some(Setting::SendTimeout)
    } else if n == "receive_timeout"@ {
        Some(Setting::ReceiveTimeout)
    } else if n == "log_level"@ {
        Some(Setting::LogLevel)
    } else if n == "reconnect_enabled"@ {
        Some(Setting::ReconnectEnabled)
    } else if n == "reconnect_max_retries"@ {
        Some(Setting::ReconnectMaxRetries)
    } else if n == "reconnect_initial_backoff"@ {
        Some(Setting::ReconnectInitialBackoff)
    } else if n == "reconnect_backoff_multiplier"@ {
        Some(Setting::ReconnectBackoffMultiplier)
    } else if n == "reconnect_max_backoff"@ {
        Some(Setting::ReconnectMaxBackoff)
    } else if n == "retry_count"@ {
        Some(Setting::RetryCount)
    } else if n == "retry_backoff"@ {
        Some(Setting::RetryBackoff)
    } else if n == "retry_backoff_multiplier"@ {
        Some(Setting::RetryBackoffMultiplier)
    } else {
        None
    }
}

/// The setting an environment variable names.
pub open spec fn env_setting(k: Seq<char>) -> Option<Setting> {
    if k == "PODOS_GATEWAY_HOST"@ {
        Some(Setting::Host)
    } else if k == "PODOS_GATEWAY_PORT"@ {
        Some(Setting::Port)
    } else if k == "PODOS_GATEWAY_FQN"@ {
        Some(Setting::Agent)
    } else if k == "PODOS_ACTOR_NAME"@ {
        Some(Setting::Client)
    } else if k == "PODOS_PASSCODE"@ {
        Some(Setting::Passcode)
    } else if k == "PODOS_CONCURRENT_MODE"@ {
        Some(Setting::ConcurrentMode)
    } else if k == "PODOS_DIAL_TIMEOUT"@ {
        Some(Setting::DialTimeout)
    } else if k == "PODOS_SEND_TIMEOUT"@ {
        Some(Setting::SendTimeout)
    } else if k == "PODOS_RECEIVE_TIMEOUT"@ {
        Some(Setting::ReceiveTimeout)
    } else if k == "PODOS_LOG_LEVEL"@ {
        Some(Setting::LogLevel)
    } else if k == "PODOS_RECONNECT_ENABLED"@ {
        Some(Setting::ReconnectEnabled)
    } else if k == "PODOS_RECONNECT_MAX_RETRIES"@ {
        Some(Setting::ReconnectMaxRetries)
    } else if k == "PODOS_RECONNECT_INITIAL_BACKOFF"@ {
        Some(Setting::ReconnectInitialBackoff)
    } else if k == "PODOS_RECONNECT_BACKOFF_MULTIPLIER"@ {
        Some(Setting::ReconnectBackoffMultiplier)
    } else if k == "PODOS_RECONNECT_MAX_BACKOFF"@ {
        Some(Setting::ReconnectMaxBackoff)
    } else {
        None
    }
}

/// The setting a key names, as the source spells keys.
pub open spec fn setting_of(src: Source, k: Seq<char>) -> Option<Setting> {
    match src {
        Source::Env => env_setting(k),
        Source::Ini => ini_setting(k),
    }
}

/// Whether `v` is a value the setting takes.
pub open spec fn accepted(s: Setting, v: Seq<char>) -> bool {
    match s {
        Setting::DialTimeout | Setting::SendTimeout | Setting::ReceiveTimeout
        | Setting::ReconnectInitialBackoff | Setting::ReconnectMaxBackoff
        | Setting::RetryBackoff => u64_spec(v) matches Some(n) && n > 0,
        Setting::LogLevel | Setting::ReconnectMaxRetries | Setting::RetryCount => u64_spec(v) is Some,
        _ => true,
    }
}

/// The last accepted value given for setting `s`.
pub open spec fn last_value(kv: Seq<(Seq<char>, Seq<char>)>, src: Source, s: Setting) -> Option<
    Seq<char>,
>
    decreases kv.len(),
{
    if kv.len() == 0 {
        None
    } else if setting_of(src, kv.last().0) == Some(s) && accepted(s, kv.last().1) {
        Some(kv.last().1)
    } else {
        last_value(kv.drop_last(), src, s)
    }
}

/// The pairs by their texts.
pub open spec fn pair_views(kv: Seq<(String, String)>) -> Seq<(Seq<char>, Seq<char>)> {
    kv.map_values(|p: (String, String)| (p.0@, p.1@))
}

/// A text setting: the last value given, or `dflt`.
pub open spec fn text_or(o: Option<Seq<char>>, dflt: Seq<char>) -> Seq<char> {
    match o {
        Some(v) => v,
        None => dflt,
    }
}

/// A duration setting, in milliseconds: the last positive value, or `dflt`.
pub open spec fn ms_or(o: Option<Seq<char>>, dflt: u128) -> u128 {
    match o {
        Some(v) => secs_ms(v),
        None => dflt,
    }
}

/// The configuration the pairs give: the default, with each recognised
/// setting taken from its last accepted value.
pub open spec fn loaded(kv: Seq<(Seq<char>, Seq<char>)>, src: Source, c: Config) -> bool {
    &&& c.network@ == "tcp"@
    &&& c.host@ == text_or(last_value(kv, src, Setting::Host), Seq::empty())
    &&& c.port@ == text_or(last_value(kv, src, Setting::Port), Seq::empty())
    &&& c.gateway_actor_name@ == text_or(last_value(kv, src, Setting::Agent), Seq::empty())
    &&& c.client_name@ == text_or(last_value(kv, src, Setting::Client), Seq::empty())
    &&& c.passcode@ == text_or(last_value(kv, src, Setting::Passcode), Seq::empty())
    &&& c.enable_streaming == match last_value(kv, src, Setting::StreamMessages) {
        Some(v) => Some(bool_value(src, v)),
        None => None,
    }
    &&& c.enable_concurrent_mode == match last_value(kv, src, Setting::ConcurrentMode) {
        Some(v) => bool_value(src, v),
        None => false,
    }
    &&& c.dial_timeout == ms_or(last_value(kv, src, Setting::DialTimeout), 10_000)
    &&& c.send_timeout == ms_or(last_value(kv, src, Setting::SendTimeout), 30_000)
    &&& c.receive_timeout == ms_or(last_value(kv, src, Setting::ReceiveTimeout), 30_000)
    &&& c.log_level == match last_value(kv, src, Setting::LogLevel) {
        Some(v) => (u64_or_zero(v) % 256) as u8,
        None => 0,
    }
    &&& c.reconnect_config.enabled == match last_value(kv, src, Setting::ReconnectEnabled) {
        Some(v) => Some(bool_value(src, v)),
        None => None,
    }
    &&& c.reconnect_config.max_retries == match last_value(
        kv,
        src,
        Setting::ReconnectMaxRetries,
    ) {
        Some(v) => u64_or_zero(v) as usize,
        None => 10,
    }
    &&& c.reconnect_config.initial_backoff == ms_or(
        last_value(kv, src, Setting::ReconnectInitialBackoff),
        1000,
    )
    &&& c.reconnect_config.max_backoff == ms_or(
        last_value(kv, src, Setting::ReconnectMaxBackoff),
        60_000,
    )
    &&& c.retry_config.retries == match last_value(kv, src, Setting::RetryCount) {
        Some(v) => u64_or_zero(v) as usize,
        None => 3,
    }
    &&& c.retry_config.backoff == ms_or(last_value(kv, src, Setting::RetryBackoff), 500)
    &&& !c.retry_config.disable_backoff_caps
    &&& c.pool_config.initial_capacity == 0
    &&& c.pool_config.max_capacity == 0
    &&& c.response_timeout == 30_000
    &&& c.keepalive_interval is None
    &&& !c.skip_global_registry
    &&& c.receive_loop_timeout == 0
    &&& c.connection_liveness_timeout == 0
    &&& c.tcp_keep_alive_idle == 0
    &&& c.tcp_keep_alive_interval == 0
    &&& c.tcp_keep_alive_count == 0
    &&& c.tcp_user_timeout == 0
    &&& !c.enable_tracing
    &&& c.tracer_name@.len() == 0
}

// ── Parsers ──────────────────────────────────────────────────────────────────

/// The trimmed text read as a `u64`.
pub fn parse_u64(v: &str) -> (r: Option<u64>)
    ensures
        r == u64_spec(v@),
{
    let c = chars_of(v);
    let t = trim_slice(c.as_slice());
    let n = t.len();
    let start: usize = if n > 0 && t[0] == '+' {
        1
    } else {
        0
    };
    let r = parse_decimal_u64(t.as_slice(), start, n);
    proof {
        let body = t@.subrange(start as int, n as int);
        if start == 1 {
            assert(body =~= t@.drop_first());
        } else {
            assert(body =~= t@);
        }
    }
    r
}

/// Environment truth: `true`, `1`, `yes` or `y`, trimmed, in any case.
pub fn parse_bool(v: &str) -> (r: bool)
    ensures
        r == bool_env_spec(v@),
{
    let c = chars_of(v);
    let t = trim_slice(c.as_slice());
    let l = lower_slice(t.as_slice());
    chars_eq_str(l.as_slice(), "true") || chars_eq_str(l.as_slice(), "1") || chars_eq_str(
        l.as_slice(),
        "yes",
    ) || chars_eq_str(l.as_slice(), "y")
}

fn upper_slice(v: &[char]) -> (r: Vec<char>)
    ensures
        r@ == v@.map_values(|c: char| upper_char(c)),
{
    let n = v.len();
    let mut out: Vec<char> = Vec::new();
    let mut i: usize = 0;
    while i < n
        invariant
            i <= n == v@.len(),
            out@ == v@.take(i as int).map_values(|c: char| upper_char(c)),
        decreases n - i,
    {
        let c = v[i];
        let u = if 'a' <= c && c <= 'z' {
            ((c as u8) - 32) as char
        } else if c == '\u{17f}' {
            'S'
        } else if c == '\u{131}' {
            'I'
        } else {
            c
        };
        assert(u == upper_char(c));
        out.push(u);
        assert(v@.take(i + 1).map_values(|c: char| upper_char(c)) =~= v@.take(i as int).map_values(
            |c: char| upper_char(c),
        ).push(u));
        i = i + 1;
    }
    assert(v@.take(n as int) =~= v@);
    out
}

/// INI truth: `Y`, `YES`, `TRUE` or `1`, trimmed, in any case.
pub fn parse_bool_ini(v: &str) -> (r: bool)
    ensures
        r == bool_ini_spec(v@),
{
    let c = chars_of(v);
    let t = trim_slice(c.as_slice());
    let u = upper_slice(t.as_slice());
    chars_eq_str(u.as_slice(), "Y") || chars_eq_str(u.as_slice(), "YES") || chars_eq_str(
        u.as_slice(),
        "TRUE",
    ) || chars_eq_str(u.as_slice(), "1")
}

fn key_form_chars(k: &str) -> (r: Vec<char>)
    ensures
        r@ == key_form(k@),
{
    let c = chars_of(k);
    let t = trim_slice(c.as_slice());
    let l = lower_slice(t.as_slice());
    let n = l.len();
    let mut out: Vec<char> = Vec::new();
    let mut i: usize = 0;
    while i < n
        invariant
            i <= n == l@.len(),
            l@ == lower_text(t@),
            t@ == trimmed(k@),
            out@ == t@.take(i as int).map_values(|c: char| key_char(c)),
        decreases n - i,
    {
        let c = if t[i] == '\u{212a}' {
            'k'
        } else {
            l[i]
        };
        assert(c == key_char(t@[i as int]));
        out.push(c);
        assert(t@.take(i + 1).map_values(|c: char| key_char(c)) =~= t@.take(i as int).map_values(
            |c: char| key_char(c),
        ).push(c));
        i = i + 1;
    }
    assert(t@.take(n as int) =~= t@);
    out
}

fn ini_setting_of(k: &str) -> (r: Option<Setting>)
    ensures
        r == ini_setting(k@),
{
    let f = key_form_chars(k);
    let n = f.as_slice();
    if chars_eq_str(n, "host") {
        Some(Setting::Host)
    } else if chars_eq_str(n, "port") {
        Some(Setting::Port)
    } else if chars_eq_str(n, "agent") {
        Some(Setting::Agent)
    } else if chars_eq_str(n, "client") {
        Some(Setting::Client)
    } else if chars_eq_str(n, "passcode") {
        Some(Setting::Passcode)
    } else if chars_eq_str(n, "stream_messages") {
        Some(Setting::StreamMessages)
    } else if chars_eq_str(n, "concurrent_mode") {
        Some(Setting::ConcurrentMode)
    } else if chars_eq_str(n, "dial_timeout") {
        Some(Setting::DialTimeout)
    } else if chars_eq_str(n, "send_timeout") {
        Some(Setting::SendTimeout)
    } else if chars_eq_str(n, "receive_timeout") {
        Some(Setting::ReceiveTimeout)
    } else if chars_eq_str(n, "log_level") {
        Some(Setting::LogLevel)
    } else if chars_eq_str(n, "reconnect_enabled") {
        Some(Setting::ReconnectEnabled)
    } else if chars_eq_str(n, "reconnect_max_retries") {
        Some(Setting::ReconnectMaxRetries)
    } else if chars_eq_str(n, "reconnect_initial_backoff") {
        Some(Setting::ReconnectInitialBackoff)
    } else if chars_eq_str(n, "reconnect_backoff_multiplier") {
        Some(Setting::ReconnectBackoffMultiplier)
    } else if chars_eq_str(n, "reconnect_max_backoff") {
        Some(Setting::ReconnectMaxBackoff)
    } else if chars_eq_str(n, "retry_count") {
        Some(Setting::RetryCount)
    } else if chars_eq_str(n, "retry_backoff") {
        Some(Setting::RetryBackoff)
    } else if chars_eq_str(n, "retry_backoff_multiplier") {
        Some(Setting::RetryBackoffMultiplier)
    } else {
        None
    }
}

fn env_setting_of(k: &str) -> (r: Option<Setting>)
    ensures
        r == env_setting(k@),
{
    if str_eq(k, "PODOS_GATEWAY_HOST") {
        Some(Setting::Host)
    } else if str_eq(k, "PODOS_GATEWAY_PORT") {
        Some(Setting::Port)
    } else if str_eq(k, "PODOS_GATEWAY_FQN") {
        Some(Setting::Agent)
    } else if str_eq(k, "PODOS_ACTOR_NAME") {
        Some(Setting::Client)
    } else if str_eq(k, "PODOS_PASSCODE") {
        Some(Setting::Passcode)
    } else if str_eq(k, "PODOS_CONCURRENT_MODE") {
        Some(Setting::ConcurrentMode)
    } else if str_eq(k, "PODOS_DIAL_TIMEOUT") {
        Some(Setting::DialTimeout)
    } else if str_eq(k, "PODOS_SEND_TIMEOUT") {
        Some(Setting::SendTimeout)
    } else if str_eq(k, "PODOS_RECEIVE_TIMEOUT") {
        Some(Setting::ReceiveTimeout)
    } else if str_eq(k, "PODOS_LOG_LEVEL") {
        Some(Setting::LogLevel)
    } else if str_eq(k, "PODOS_RECONNECT_ENABLED") {
        Some(Setting::ReconnectEnabled)
    } else if str_eq(k, "PODOS_RECONNECT_MAX_RETRIES") {
        Some(Setting::ReconnectMaxRetries)
    } else if str_eq(k, "PODOS_RECONNECT_INITIAL_BACKOFF") {
        Some(Setting::ReconnectInitialBackoff)
    } else if str_eq(k, "PODOS_RECONNECT_BACKOFF_MULTIPLIER") {
        Some(Setting::ReconnectBackoffMultiplier)
    } else if str_eq(k, "PODOS_RECONNECT_MAX_BACKOFF") {
        Some(Setting::ReconnectMaxBackoff)
    } else {
        None
    }
}

/// The setting a key names, as the source spells keys (INI keys are
/// trimmed and compared in lower case; variable names exactly).
pub fn setting_of_key(src: Source, key: &str) -> (r: Option<Setting>)
    ensures
        r == setting_of(src, key@),
{
    match src {
        Source::Env => env_setting_of(key),
        Source::Ini => ini_setting_of(key),
    }
}

fn bool_of(src: Source, v: &str) -> (r: bool)
    ensures
        r == bool_value(src, v@),
{
    match src {
        Source::Env => parse_bool(v),
        Source::Ini => parse_bool_ini(v),
    }
}

/// What one pair does to the configuration.
pub open spec fn stepped(src: Source, old: Config, new: Config, k: Seq<char>, v: Seq<char>) -> bool {
    let s = setting_of(src, k);
    let hit = |t: Setting| s == Some(t) && accepted(t, v);
    &&& new.network@ == old.network@
    &&& new.host@ == (if hit(Setting::Host) { v } else { old.host@ })
    &&& new.port@ == (if hit(Setting::Port) { v } else { old.port@ })
    &&& new.gateway_actor_name@ == (if hit(Setting::Agent) { v } else { old.gateway_actor_name@ })
    &&& new.client_name@ == (if hit(Setting::Client) { v } else { old.client_name@ })
    &&& new.passcode@ == (if hit(Setting::Passcode) { v } else { old.passcode@ })
    &&& new.enable_streaming == (if hit(Setting::StreamMessages) {
        Some(bool_value(src, v))
    } else {
        old.enable_streaming
    })
    &&& new.enable_concurrent_mode == (if hit(Setting::ConcurrentMode) {
        bool_value(src, v)
    } else {
        old.enable_concurrent_mode
    })
    &&& new.dial_timeout == (if hit(Setting::DialTimeout) { secs_ms(v) } else { old.dial_timeout })
    &&& new.send_timeout == (if hit(Setting::SendTimeout) { secs_ms(v) } else { old.send_timeout })
    &&& new.receive_timeout == (if hit(Setting::ReceiveTimeout) {
        secs_ms(v)
    } else {
        old.receive_timeout
    })
    &&& new.log_level == (if hit(Setting::LogLevel) {
        (u64_or_zero(v) % 256) as u8
    } else {
        old.log_level
    })
    &&& new.reconnect_config.enabled == (if hit(Setting::ReconnectEnabled) {
        Some(bool_value(src, v))
    } else {
        old.reconnect_config.enabled
    })
    &&& new.reconnect_config.max_retries == (if hit(Setting::ReconnectMaxRetries) {
        u64_or_zero(v) as usize
    } else {
        old.reconnect_config.max_retries
    })
    &&& new.reconnect_config.initial_backoff == (if hit(Setting::ReconnectInitialBackoff) {
        secs_ms(v)
    } else {
        old.reconnect_config.initial_backoff
    })
    &&& new.reconnect_config.max_backoff == (if hit(Setting::ReconnectMaxBackoff) {
        secs_ms(v)
    } else {
        old.reconnect_config.max_backoff
    })
    &&& new.retry_config.retries == (if hit(Setting::RetryCount) {
        u64_or_zero(v) as usize
    } else {
        old.retry_config.retries
    })
    &&& new.retry_config.backoff == (if hit(Setting::RetryBackoff) {
        secs_ms(v)
    } else {
        old.retry_config.backoff
    })
    &&& new.retry_config.disable_backoff_caps == old.retry_config.disable_backoff_caps
    &&& new.pool_config.initial_capacity == old.pool_config.initial_capacity
    &&& new.pool_config.max_capacity == old.pool_config.max_capacity
    &&& new.response_timeout == old.response_timeout
    &&& new.keepalive_interval == old.keepalive_interval
    &&& new.skip_global_registry == old.skip_global_registry
    &&& new.receive_loop_timeout == old.receive_loop_timeout
    &&& new.connection_liveness_timeout == old.connection_liveness_timeout
    &&& new.tcp_keep_alive_idle == old.tcp_keep_alive_idle
    &&& new.tcp_keep_alive_interval == old.tcp_keep_alive_interval
    &&& new.tcp_keep_alive_count == old.tcp_keep_alive_count
    &&& new.tcp_user_timeout == old.tcp_user_timeout
    &&& new.enable_tracing == old.enable_tracing
    &&& new.tracer_name@ == old.tracer_name@
}

fn positive_secs_ms(v: &str) -> (r: Option<u128>)
    ensures
        r matches Some(ms) ==> u64_spec(v@) matches Some(n) && n > 0 && ms == secs_ms(v@),
        r is None ==> !(u64_spec(v@) matches Some(n) && n > 0),
{
    match parse_u64(v) {
        Some(n) => if n > 0 {
            Some((n as u128) * 1000)
        } else {
            None
        },
        None => None,
    }
}

fn apply_setting(cfg: &mut Config, src: Source, key: &str, value: &String)
    ensures
        stepped(src, *old(cfg), *final(cfg), key@, value@),
{
    let v = value.as_str();
    match setting_of_key(src, key) {
        Some(Setting::Host) => cfg.host = value.clone(),
        Some(Setting::Port) => cfg.port = value.clone(),
        Some(Setting::Agent) => cfg.gateway_actor_name = value.clone(),
        Some(Setting::Client) => cfg.client_name = value.clone(),
        Some(Setting::Passcode) => cfg.passcode = value.clone(),
        Some(Setting::StreamMessages) => cfg.enable_streaming = Some(bool_of(src, v)),
        Some(Setting::ConcurrentMode) => cfg.enable_concurrent_mode = bool_of(src, v),
        Some(Setting::DialTimeout) => {
            if let Some(ms) = positive_secs_ms(v) {
                cfg.dial_timeout = ms;
            }
        },
        Some(Setting::SendTimeout) => {
            if let Some(ms) = positive_secs_ms(v) {
                cfg.send_timeout = ms;
            }
        },
        Some(Setting::ReceiveTimeout) => {
            if let Some(ms) = positive_secs_ms(v) {
                cfg.receive_timeout = ms;
            }
        },
        Some(Setting::LogLevel) => {
            if let Some(n) = parse_u64(v) {
                cfg.log_level = (n % 256) as u8;
            }
        },
        Some(Setting::ReconnectEnabled) => cfg.reconnect_config.enabled = Some(bool_of(src, v)),
        Some(Setting::ReconnectMaxRetries) => {
            if let Some(n) = parse_u64(v) {
                cfg.reconnect_config.max_retries = n as usize;
            }
        },
        Some(Setting::ReconnectInitialBackoff) => {
            if let Some(ms) = positive_secs_ms(v) {
                cfg.reconnect_config.initial_backoff = ms;
            }
        },
        Some(Setting::ReconnectMaxBackoff) => {
            if let Some(ms) = positive_secs_ms(v) {
                cfg.reconnect_config.max_backoff = ms;
            }
        },
        Some(Setting::RetryCount) => {
            if let Some(n) = parse_u64(v) {
                cfg.retry_config.retries = n as usize;
            }
        },
        Some(Setting::RetryBackoff) => {
            if let Some(ms) = positive_secs_ms(v) {
                cfg.retry_config.backoff = ms;
            }
        },
        Some(Setting::ReconnectBackoffMultiplier) | Some(Setting::RetryBackoffMultiplier) | None => {
        },
    }
}

fn load(kvs: &[(String, String)], src: Source) -> (r: Config)
    ensures
        loaded(pair_views(kvs@), src, r),
{
    let mut cfg = Config::default();
    proof {
        assert(cfg.host@ =~= Seq::empty());
        assert(cfg.port@ =~= Seq::empty());
        assert(cfg.gateway_actor_name@ =~= Seq::empty());
        assert(cfg.client_name@ =~= Seq::empty());
        assert(cfg.passcode@ =~= Seq::empty());
    }
    let n = kvs.len();
    let mut i: usize = 0;
    while i < n
        invariant
            i <= n == kvs@.len(),
            loaded(pair_views(kvs@).take(i as int), src, cfg),
        decreases n - i,
    {
        let ghost before = cfg;
        let (k, v) = &kvs[i];
        apply_setting(&mut cfg, src, k.as_str(), v);
        proof {
            let kv = pair_views(kvs@);
            assert(kv.take(i + 1).drop_last() =~= kv.take(i as int));
            assert(kv.take(i + 1).last() == (k@, v@));
        }
        i = i + 1;
    }
    assert(pair_views(kvs@).take(n as int) =~= pair_views(kvs@));
    cfg
}

/// The configuration given by INI key/value pairs, in file order.
///
/// Keys (trimmed, in any case): `host`, `port`, `agent` (gateway actor
/// name), `client` (client name), `passcode`, `stream_messages`,
/// `concurrent_mode`, `dial_timeout`, `send_timeout`, `receive_timeout`,
/// `log_level`, `reconnect_enabled`, `reconnect_max_retries`,
/// `reconnect_initial_backoff`, `reconnect_max_backoff`, `retry_count`,
/// `retry_backoff`; other keys are ignored.
pub fn config_from_ini(kvs: &[(String, String)]) -> (r: Config)
    ensures
        loaded(pair_views(kvs@), Source::Ini, r),
{
    load(kvs, Source::Ini)
}

/// The configuration given by the `PODOS_*` variables of an environment,
/// as `(name, value)` pairs.
///
/// Variables: `PODOS_GATEWAY_HOST`, `PODOS_GATEWAY_PORT`,
/// `PODOS_GATEWAY_FQN`, `PODOS_ACTOR_NAME`, `PODOS_PASSCODE`,
/// `PODOS_CONCURRENT_MODE`, `PODOS_DIAL_TIMEOUT`, `PODOS_SEND_TIMEOUT`,
/// `PODOS_RECEIVE_TIMEOUT`, `PODOS_LOG_LEVEL`, `PODOS_RECONNECT_ENABLED`,
/// `PODOS_RECONNECT_MAX_RETRIES`, `PODOS_RECONNECT_INITIAL_BACKOFF`,
/// `PODOS_RECONNECT_MAX_BACKOFF`.
pub fn config_from_env(vars: &[(String, String)]) -> (r: Config)
    ensures
        loaded(pair_views(vars@), Source::Env, r),
{
    load(vars, Source::Env)
}


/// One more pair decides a setting exactly when it names the setting with
/// an accepted value; otherwise the setting keeps what the earlier pairs
/// gave it. So later pairs win, unknown keys are ignored, and values that
/// do not parse change nothing.
pub proof fn lemma_pair_effect(
    kv: Seq<(Seq<char>, Seq<char>)>,
    p: (Seq<char>, Seq<char>),
    src: Source,
    s: Setting,
)
    ensures
        last_value(kv.push(p), src, s) == (if setting_of(src, p.0) == Some(s) && accepted(s, p.1) {
            Some(p.1)
        } else {
            last_value(kv, src, s)
        }),
{
    assert(kv.push(p).drop_last() =~= kv);
}

/// A pair whose key names no setting leaves the loaded configuration as it
/// was.
pub proof fn lemma_unknown_key_ignored(
    kv: Seq<(Seq<char>, Seq<char>)>,
    p: (Seq<char>, Seq<char>),
    src: Source,
    c: Config,
)
    requires
        setting_of(src, p.0) is None,
    ensures
        loaded(kv.push(p), src, c) == loaded(kv, src, c),
{
    assert(kv.push(p).drop_last() =~= kv);
}

/// No pairs give the default configuration.
pub proof fn lemma_no_pairs_default(src: Source, c: Config)
    requires
        loaded(Seq::empty(), src, c),
    ensures
        crate::config::is_default_config(c),
{
}


/// The environment variable names differ from one another: by length, or by
/// one of the characters after `PODOS_`.
proof fn lemma_env_names_differ()
    ensures
        "PODOS_GATEWAY_HOST"@.len() == 18 && "PODOS_GATEWAY_HOST"@[6] == 'G' && "PODOS_GATEWAY_HOST"@[14] == 'H',
        "PODOS_GATEWAY_PORT"@.len() == 18 && "PODOS_GATEWAY_PORT"@[6] == 'G' && "PODOS_GATEWAY_PORT"@[14] == 'P',
        "PODOS_GATEWAY_FQN"@.len() == 17 && "PODOS_GATEWAY_FQN"@[6] == 'G',
        "PODOS_ACTOR_NAME"@.len() == 16 && "PODOS_ACTOR_NAME"@[6] == 'A',
        "PODOS_PASSCODE"@.len() == 14 && "PODOS_PASSCODE"@[6] == 'P',
        "PODOS_CONCURRENT_MODE"@.len() == 21 && "PODOS_CONCURRENT_MODE"@[6] == 'C',
        "PODOS_DIAL_TIMEOUT"@.len() == 18 && "PODOS_DIAL_TIMEOUT"@[6] == 'D',
        "PODOS_SEND_TIMEOUT"@.len() == 18 && "PODOS_SEND_TIMEOUT"@[6] == 'S',
        "PODOS_RECEIVE_TIMEOUT"@.len() == 21 && "PODOS_RECEIVE_TIMEOUT"@[6] == 'R',
        "PODOS_LOG_LEVEL"@.len() == 15 && "PODOS_LOG_LEVEL"@[6] == 'L',
        "PODOS_RECONNECT_ENABLED"@.len() == 23 && "PODOS_RECONNECT_ENABLED"@[6] == 'R',
        "PODOS_RECONNECT_MAX_RETRIES"@.len() == 27 && "PODOS_RECONNECT_MAX_RETRIES"@[6] == 'R' && "PODOS_RECONNECT_MAX_RETRIES"@[20] == 'R',
        "PODOS_RECONNECT_INITIAL_BACKOFF"@.len() == 31 && "PODOS_RECONNECT_INITIAL_BACKOFF"@[6] == 'R',
        "PODOS_RECONNECT_BACKOFF_MULTIPLIER"@.len() == 34 && "PODOS_RECONNECT_BACKOFF_MULTIPLIER"@[6] == 'R',
        "PODOS_RECONNECT_MAX_BACKOFF"@.len() == 27 && "PODOS_RECONNECT_MAX_BACKOFF"@[6] == 'R' && "PODOS_RECONNECT_MAX_BACKOFF"@[20] == 'B',
{
    reveal_strlit("PODOS_GATEWAY_HOST");
    reveal_strlit("PODOS_GATEWAY_PORT");
    reveal_strlit("PODOS_GATEWAY_FQN");
    reveal_strlit("PODOS_ACTOR_NAME");
    reveal_strlit("PODOS_PASSCODE");
    reveal_strlit("PODOS_CONCURRENT_MODE");
    reveal_strlit("PODOS_DIAL_TIMEOUT");
    reveal_strlit("PODOS_SEND_TIMEOUT");
    reveal_strlit("PODOS_RECEIVE_TIMEOUT");
    reveal_strlit("PODOS_LOG_LEVEL");
    reveal_strlit("PODOS_RECONNECT_ENABLED");
    reveal_strlit("PODOS_RECONNECT_MAX_RETRIES");
    reveal_strlit("PODOS_RECONNECT_INITIAL_BACKOFF");
    reveal_strlit("PODOS_RECONNECT_BACKOFF_MULTIPLIER");
    reveal_strlit("PODOS_RECONNECT_MAX_BACKOFF");
}

/// A duration setting given `v` seconds: `v` thousand milliseconds when `v`
/// is a positive number, else `dflt`.
pub open spec fn secs_given(v: Seq<char>, dflt: u128) -> u128 {
    match u64_spec(v) {
        Some(n) => if n > 0 {
            (n * 1000) as u128
        } else {
            dflt
        },
        None => dflt,
    }
}

/// Each `PODOS_*` environment variable sets the configuration field it
/// names, and only that field among its neighbours: the gateway host, port
/// and actor name, the client's actor name, the passcode, concurrent mode,
/// the dial, send and receive timeouts (given in seconds, kept in
/// milliseconds), the log level, and the reconnect switch, retry limit and
/// backoffs.
#[verifier::rlimit(100)]
#[verifier::spinoff_prover]
pub proof fn lemma_env_variable_sets_its_field(k: Seq<char>, v: Seq<char>, c: Config)
    requires
        loaded(seq![(k, v)], Source::Env, c),
    ensures
        k == "PODOS_GATEWAY_HOST"@ ==> c.host@ == v && c.port@.len() == 0
            && c.gateway_actor_name@.len() == 0 && c.client_name@.len() == 0,
        k == "PODOS_GATEWAY_PORT"@ ==> c.port@ == v && c.host@.len() == 0,
        k == "PODOS_GATEWAY_FQN"@ ==> c.gateway_actor_name@ == v && c.client_name@.len() == 0
            && c.host@.len() == 0,
        k == "PODOS_ACTOR_NAME"@ ==> c.client_name@ == v && c.gateway_actor_name@.len() == 0,
        k == "PODOS_PASSCODE"@ ==> c.passcode@ == v && c.client_name@.len() == 0,
        k == "PODOS_CONCURRENT_MODE"@ ==> c.enable_concurrent_mode == bool_env_spec(v),
        k == "PODOS_DIAL_TIMEOUT"@ ==> c.dial_timeout == secs_given(v, 10_000) && c.send_timeout
            == 30_000 && c.receive_timeout == 30_000,
        k == "PODOS_SEND_TIMEOUT"@ ==> c.send_timeout == secs_given(v, 30_000) && c.dial_timeout
            == 10_000 && c.receive_timeout == 30_000,
        k == "PODOS_RECEIVE_TIMEOUT"@ ==> c.receive_timeout == secs_given(v, 30_000)
            && c.dial_timeout == 10_000 && c.send_timeout == 30_000,
        k == "PODOS_LOG_LEVEL"@ ==> c.log_level == match u64_spec(v) {
            Some(n) => (n % 256) as u8,
            None => 0,
        },
        k == "PODOS_RECONNECT_ENABLED"@ ==> c.reconnect_config.enabled == Some(bool_env_spec(v)),
        k == "PODOS_RECONNECT_MAX_RETRIES"@ ==> c.reconnect_config.max_retries == match u64_spec(
            v,
        ) {
            Some(n) => n as usize,
            None => 10,
        },
        k == "PODOS_RECONNECT_INITIAL_BACKOFF"@ ==> c.reconnect_config.initial_backoff
            == secs_given(v, 1000) && c.reconnect_config.max_backoff == 60_000,
        k == "PODOS_RECONNECT_MAX_BACKOFF"@ ==> c.reconnect_config.max_backoff == secs_given(
            v,
            60_000,
        ) && c.reconnect_config.initial_backoff == 1000,
{
    lemma_env_names_differ();
    lemma_single_pair(k, v, Source::Env, Setting::Host);
    lemma_single_pair(k, v, Source::Env, Setting::Port);
    lemma_single_pair(k, v, Source::Env, Setting::Agent);
    lemma_single_pair(k, v, Source::Env, Setting::Client);
    lemma_single_pair(k, v, Source::Env, Setting::Passcode);
    lemma_single_pair(k, v, Source::Env, Setting::ConcurrentMode);
    lemma_single_pair(k, v, Source::Env, Setting::DialTimeout);
    lemma_single_pair(k, v, Source::Env, Setting::SendTimeout);
    lemma_single_pair(k, v, Source::Env, Setting::ReceiveTimeout);
    lemma_single_pair(k, v, Source::Env, Setting::LogLevel);
    lemma_single_pair(k, v, Source::Env, Setting::ReconnectEnabled);
    lemma_single_pair(k, v, Source::Env, Setting::ReconnectMaxRetries);
    lemma_single_pair(k, v, Source::Env, Setting::ReconnectInitialBackoff);
    lemma_single_pair(k, v, Source::Env, Setting::ReconnectMaxBackoff);
}

/// One pair gives a setting its value exactly when it names the setting
/// with an accepted value.
proof fn lemma_single_pair(k: Seq<char>, v: Seq<char>, src: Source, s: Setting)
    ensures
        last_value(seq![(k, v)], src, s) == if setting_of(src, k) == Some(s) && accepted(s, v) {
            Some(v)
        } else {
            None
        },
{
    let kv = seq![(k, v)];
    assert(kv.drop_last() =~= Seq::<(Seq<char>, Seq<char>)>::empty());
    assert(last_value(kv.drop_last(), src, s) is None);
    assert(kv.last() == (k, v));
}


/// The INI key names differ from one another: by length, or by their first
/// (or fifteenth) character.
proof fn lemma_ini_names_differ()
    ensures
        "host"@.len() == 4 && "host"@[0] == 'h',
        "port"@.len() == 4 && "port"@[0] == 'p',
        "agent"@.len() == 5 && "agent"@[0] == 'a',
        "client"@.len() == 6 && "client"@[0] == 'c',
        "passcode"@.len() == 8 && "passcode"@[0] == 'p',
        "stream_messages"@.len() == 15 && "stream_messages"@[0] == 's',
        "concurrent_mode"@.len() == 15 && "concurrent_mode"@[0] == 'c',
        "dial_timeout"@.len() == 12 && "dial_timeout"@[0] == 'd',
        "send_timeout"@.len() == 12 && "send_timeout"@[0] == 's',
        "receive_timeout"@.len() == 15 && "receive_timeout"@[0] == 'r',
        "log_level"@.len() == 9 && "log_level"@[0] == 'l',
        "reconnect_enabled"@.len() == 17 && "reconnect_enabled"@[0] == 'r',
        "reconnect_max_retries"@.len() == 21 && "reconnect_max_retries"@[0] == 'r' && "reconnect_max_retries"@[14] == 'r',
        "reconnect_initial_backoff"@.len() == 25 && "reconnect_initial_backoff"@[0] == 'r',
        "reconnect_backoff_multiplier"@.len() == 28 && "reconnect_backoff_multiplier"@[0] == 'r',
        "reconnect_max_backoff"@.len() == 21 && "reconnect_max_backoff"@[0] == 'r' && "reconnect_max_backoff"@[14] == 'b',
        "retry_count"@.len() == 11 && "retry_count"@[0] == 'r',
        "retry_backoff"@.len() == 13 && "retry_backoff"@[0] == 'r',
        "retry_backoff_multiplier"@.len() == 24 && "retry_backoff_multiplier"@[0] == 'r',
{
    reveal_strlit("host");
    reveal_strlit("port");
    reveal_strlit("agent");
    reveal_strlit("client");
    reveal_strlit("passcode");
    reveal_strlit("stream_messages");
    reveal_strlit("concurrent_mode");
    reveal_strlit("dial_timeout");
    reveal_strlit("send_timeout");
    reveal_strlit("receive_timeout");
    reveal_strlit("log_level");
    reveal_strlit("reconnect_enabled");
    reveal_strlit("reconnect_max_retries");
    reveal_strlit("reconnect_initial_backoff");
    reveal_strlit("reconnect_backoff_multiplier");
    reveal_strlit("reconnect_max_backoff");
    reveal_strlit("retry_count");
    reveal_strlit("retry_backoff");
    reveal_strlit("retry_backoff_multiplier");
}

/// Each INI key sets the configuration field it names (a key is read in
/// its normal form, trimmed and in lower case), and only that field
/// among its neighbours: host, port, agent (gateway actor name), client
/// (client name), passcode, stream messages, concurrent mode, the dial,
/// send and receive timeouts, the log level, the reconnect switch, retry
/// limit and backoffs, and the connect retry count and backoff.
#[verifier::rlimit(100)]
#[verifier::spinoff_prover]
pub proof fn lemma_ini_key_sets_its_field(k: Seq<char>, v: Seq<char>, c: Config)
    requires
        loaded(seq![(k, v)], Source::Ini, c),
    ensures
        key_form(k) == "host"@ ==> c.host@ == v && c.port@.len() == 0,
        key_form(k) == "port"@ ==> c.port@ == v && c.host@.len() == 0,
        key_form(k) == "agent"@ ==> c.gateway_actor_name@ == v && c.client_name@.len() == 0,
        key_form(k) == "client"@ ==> c.client_name@ == v && c.gateway_actor_name@.len() == 0,
        key_form(k) == "passcode"@ ==> c.passcode@ == v,
        key_form(k) == "stream_messages"@ ==> c.enable_streaming == Some(bool_ini_spec(v))
            && !c.enable_concurrent_mode,
        key_form(k) == "concurrent_mode"@ ==> c.enable_concurrent_mode == bool_ini_spec(v)
            && c.enable_streaming is None,
        key_form(k) == "dial_timeout"@ ==> c.dial_timeout == secs_given(v, 10_000) && c.send_timeout
            == 30_000 && c.receive_timeout == 30_000,
        key_form(k) == "send_timeout"@ ==> c.send_timeout == secs_given(v, 30_000) && c.dial_timeout
            == 10_000 && c.receive_timeout == 30_000,
        key_form(k) == "receive_timeout"@ ==> c.receive_timeout == secs_given(v, 30_000)
            && c.dial_timeout == 10_000 && c.send_timeout == 30_000,
        key_form(k) == "log_level"@ ==> c.log_level == match u64_spec(v) {
            Some(n) => (n % 256) as u8,
            None => 0,
        },
        key_form(k) == "reconnect_enabled"@ ==> c.reconnect_config.enabled == Some(bool_ini_spec(v)),
        key_form(k) == "reconnect_max_retries"@ ==> c.reconnect_config.max_retries == match u64_spec(
            v,
        ) {
            Some(n) => n as usize,
            None => 10,
        } && c.retry_config.retries == 3,
        key_form(k) == "reconnect_initial_backoff"@ ==> c.reconnect_config.initial_backoff
            == secs_given(v, 1000) && c.reconnect_config.max_backoff == 60_000,
        key_form(k) == "reconnect_max_backoff"@ ==> c.reconnect_config.max_backoff == secs_given(
            v,
            60_000,
        ) && c.reconnect_config.initial_backoff == 1000,
        key_form(k) == "retry_count"@ ==> c.retry_config.retries == match u64_spec(v) {
            Some(n) => n as usize,
            None => 3,
        } && c.reconnect_config.max_retries == 10,
        key_form(k) == "retry_backoff"@ ==> c.retry_config.backoff == secs_given(v, 500)
            && c.reconnect_config.initial_backoff == 1000,
{
    lemma_ini_names_differ();
    lemma_single_pair(k, v, Source::Ini, Setting::Host);
    lemma_single_pair(k, v, Source::Ini, Setting::Port);
    lemma_single_pair(k, v, Source::Ini, Setting::Agent);
    lemma_single_pair(k, v, Source::Ini, Setting::Client);
    lemma_single_pair(k, v, Source::Ini, Setting::Passcode);
    lemma_single_pair(k, v, Source::Ini, Setting::StreamMessages);
    lemma_single_pair(k, v, Source::Ini, Setting::ConcurrentMode);
    lemma_single_pair(k, v, Source::Ini, Setting::DialTimeout);
    lemma_single_pair(k, v, Source::Ini, Setting::SendTimeout);
    lemma_single_pair(k, v, Source::Ini, Setting::ReceiveTimeout);
    lemma_single_pair(k, v, Source::Ini, Setting::LogLevel);
    lemma_single_pair(k, v, Source::Ini, Setting::ReconnectEnabled);
    lemma_single_pair(k, v, Source::Ini, Setting::ReconnectMaxRetries);
    lemma_single_pair(k, v, Source::Ini, Setting::ReconnectInitialBackoff);
    lemma_single_pair(k, v, Source::Ini, Setting::ReconnectMaxBackoff);
    lemma_single_pair(k, v, Source::Ini, Setting::RetryCount);
    lemma_single_pair(k, v, Source::Ini, Setting::RetryBackoff);
}

} // verus!
