//! Client configuration: connection, identity, retry, timeouts, pool,
//! streaming, reconnection and keepalive settings.
//!
//! Durations are whole milliseconds. The backoff multipliers, which are
//! floating-point factors, and the logger, tracer and wire observer are held
//! by the program that drives the client.

use vstd::prelude::*;

verus! {

/// Retry policy for the initial dial.
#[derive(Debug, Clone)]
pub struct RetryConfig {
    /// Maximum number of attempts; 0 means unlimited.
    pub retries: usize,
    /// Initial backoff, in milliseconds.
    pub backoff: u128,
    pub disable_backoff_caps: bool,
}

impl Default for RetryConfig {
    /// Three attempts, 500 ms initial backoff, caps applied.
    fn default() -> (r: Self)
        ensures
            r.retries == 3,
            r.backoff == 500,
            !r.disable_backoff_caps,
    {
        RetryConfig { retries: 3, backoff: 500, disable_backoff_caps: false }
    }
}

/// Size of the secondary connection pool; no pool when `max_capacity` is 0.
#[derive(Debug, Clone)]
pub struct PoolConfig {
    pub initial_capacity: usize,
    pub max_capacity: usize,
}

impl Default for PoolConfig {
    /// No pool.
    fn default() -> (r: Self)
        ensures
            r.initial_capacity == 0,
            r.max_capacity == 0,
    {
        PoolConfig { initial_capacity: 0, max_capacity: 0 }
    }
}

/// Reconnection policy.
#[derive(Debug, Clone)]
pub struct ReconnectConfig {
    /// `None` means enabled.
    pub enabled: Option<bool>,
    /// Maximum attempts; 0 means unlimited.
    pub max_retries: usize,
    /// First delay, in milliseconds.
    pub initial_backoff: u128,
    /// Largest delay, in milliseconds.
    pub max_backoff: u128,
}

impl Default for ReconnectConfig {
    /// Enabled, 10 attempts, 1 s first delay, at most 60 s.
    fn default() -> (r: Self)
        ensures
            r.enabled is None,
            r.max_retries == 10,
            r.initial_backoff == 1000,
            r.max_backoff == 60_000,
    {
        ReconnectConfig { enabled: None, max_retries: 10, initial_backoff: 1000, max_backoff: 60_000 }
    }
}

impl ReconnectConfig {
    /// Reconnection is on unless switched off explicitly.
    pub open spec fn enabled_spec(self) -> bool {
        match self.enabled {
            Some(b) => b,
            None => true,
        }
    }

    /// Whether reconnection is on (unset means on).
    pub fn is_enabled(&self) -> (r: bool)
        ensures
            r == self.enabled_spec(),
    {
        match self.enabled {
            Some(b) => b,
            None => true,
        }
    }

    /// The first delay, in milliseconds.
    pub fn initial_backoff(&self) -> (r: u128)
        ensures
            r == self.initial_backoff,
    {
        self.initial_backoff
    }

    /// The largest delay, in milliseconds.
    pub fn max_backoff(&self) -> (r: u128)
        ensures
            r == self.max_backoff,
    {
        self.max_backoff
    }
}

/// Default keepalive interval, in milliseconds.
pub const DEFAULT_KEEPALIVE_INTERVAL: u128 = 30_000;
/// Default bound on one background receive, in milliseconds.
pub const DEFAULT_RECEIVE_LOOP_TIMEOUT: u128 = 30_000;
/// Default liveness backstop, in milliseconds.
pub const DEFAULT_CONNECTION_LIVENESS_TIMEOUT: u128 = 90_000;

/// Top-level client configuration.
#[derive(Debug, Clone)]
pub struct Config {
    /// Network family: `"tcp"`, `"tcp4"`, `"tcp6"`, `"udp"`, `"unix"`, ...
    pub network: String,
    pub host: String,
    pub port: String,
    pub gateway_actor_name: String,
    /// Identifies this client to the gateway; must not be empty.
    pub client_name: String,
    pub passcode: String,
    pub retry_config: RetryConfig,
    /// Milliseconds.
    pub dial_timeout: u128,
    /// Milliseconds.
    pub receive_timeout: u128,
    /// Milliseconds.
    pub send_timeout: u128,
    pub pool_config: PoolConfig,
    /// `None` or `Some(true)`: send `GatewayStreamOn`; `Some(false)`: skip it.
    pub enable_streaming: Option<bool>,
    /// A background task routes responses by message id.
    pub enable_concurrent_mode: bool,
    /// Per-request response wait, in milliseconds.
    pub response_timeout: u128,
    pub reconnect_config: ReconnectConfig,
    /// Keepalive interval in milliseconds: `None` for the default,
    /// `Some(0)` to switch keepalives off.
    pub keepalive_interval: Option<u128>,
    /// Keeps this client out of the global registry (warm-pool standby).
    pub skip_global_registry: bool,
    /// Bound on one background receive in milliseconds; 0 for the default.
    pub receive_loop_timeout: u128,
    /// Liveness backstop in milliseconds; 0 for the default.
    pub connection_liveness_timeout: u128,
    /// TCP keepalive idle time in milliseconds; 0 for the transport default.
    pub tcp_keep_alive_idle: u128,
    /// TCP keepalive probe interval in milliseconds; 0 for the default.
    pub tcp_keep_alive_interval: u128,
    /// TCP keepalive probe count; 0 for the default.
    pub tcp_keep_alive_count: u32,
    /// TCP user timeout in milliseconds; 0 for the default.
    pub tcp_user_timeout: u128,
    pub log_level: u8,
    pub enable_tracing: bool,
    pub tracer_name: String,
}

/// The default configuration.
pub open spec fn is_default_config(c: Config) -> bool {
    &&& c.network@ == "tcp"@
    &&& c.host@.len() == 0
    &&& c.port@.len() == 0
    &&& c.gateway_actor_name@.len() == 0
    &&& c.client_name@.len() == 0
    &&& c.passcode@.len() == 0
    &&& c.retry_config.retries == 3
    &&& c.retry_config.backoff == 500
    &&& !c.retry_config.disable_backoff_caps
    &&& c.dial_timeout == 10_000
    &&& c.receive_timeout == 30_000
    &&& c.send_timeout == 30_000
    &&& c.pool_config.initial_capacity == 0
    &&& c.pool_config.max_capacity == 0
    &&& c.enable_streaming is None
    &&& !c.enable_concurrent_mode
    &&& c.response_timeout == 30_000
    &&& c.reconnect_config.enabled is None
    &&& c.reconnect_config.max_retries == 10
    &&& c.reconnect_config.initial_backoff == 1000
    &&& c.reconnect_config.max_backoff == 60_000
    &&& c.keepalive_interval is None
    &&& !c.skip_global_registry
    &&& c.receive_loop_timeout == 0
    &&& c.connection_liveness_timeout == 0
    &&& c.tcp_keep_alive_idle == 0
    &&& c.tcp_keep_alive_interval == 0
    &&& c.tcp_keep_alive_count == 0
    &&& c.tcp_user_timeout == 0
    &&& c.log_level == 0
    &&& !c.enable_tracing
    &&& c.tracer_name@.len() == 0
}

impl Default for Config {
    /// TCP, empty identity, 10 s dial, 30 s send/receive/response timeouts,
    /// default retry and reconnect policies, no pool, defaults elsewhere.
    fn default() -> (r: Self)
        ensures
            is_default_config(r),
    {
        Config {
            network: "tcp".to_owned(),
            host: String::new(),
            port: String::new(),
            gateway_actor_name: String::new(),
            client_name: String::new(),
            passcode: String::new(),
            retry_config: RetryConfig::default(),
            dial_timeout: 10_000,
            receive_timeout: 30_000,
            send_timeout: 30_000,
            pool_config: PoolConfig::default(),
            enable_streaming: None,
            enable_concurrent_mode: false,
            response_timeout: 30_000,
            reconnect_config: ReconnectConfig::default(),
            keepalive_interval: None,
            skip_global_registry: false,
            receive_loop_timeout: 0,
            connection_liveness_timeout: 0,
            tcp_keep_alive_idle: 0,
            tcp_keep_alive_interval: 0,
            tcp_keep_alive_count: 0,
            tcp_user_timeout: 0,
            log_level: 0,
            enable_tracing: false,
            tracer_name: String::new(),
        }
    }
}

impl Config {
    /// Streaming is on unless switched off explicitly.
    pub open spec fn streaming_spec(self) -> bool {
        match self.enable_streaming {
            Some(b) => b,
            None => true,
        }
    }

    /// The keepalive interval in effect, in milliseconds (0: off).
    pub open spec fn keepalive_spec(self) -> u128 {
        match self.keepalive_interval {
            None => DEFAULT_KEEPALIVE_INTERVAL,
            Some(d) => d,
        }
    }

    /// The bound on one background receive in effect, in milliseconds.
    pub open spec fn receive_loop_spec(self) -> u128 {
        if self.receive_loop_timeout == 0 {
            DEFAULT_RECEIVE_LOOP_TIMEOUT
        } else {
            self.receive_loop_timeout
        }
    }

    /// The liveness backstop in effect, in milliseconds.
    pub open spec fn liveness_spec(self) -> u128 {
        if self.connection_liveness_timeout == 0 {
            DEFAULT_CONNECTION_LIVENESS_TIMEOUT
        } else {
            self.connection_liveness_timeout
        }
    }

    /// Whether `GatewayStreamOn` is sent after authentication.
    pub fn streaming_enabled(&self) -> (r: bool)
        ensures
            r == self.streaming_spec(),
    {
        match self.enable_streaming {
            Some(b) => b,
            None => true,
        }
    }

    /// The keepalive interval in milliseconds: 30 s when unset, 0 when
    /// switched off.
    pub fn keepalive_interval(&self) -> (r: u128)
        ensures
            r == self.keepalive_spec(),
    {
        match self.keepalive_interval {
            None => DEFAULT_KEEPALIVE_INTERVAL,
            Some(d) => d,
        }
    }

    /// The bound on one background receive in milliseconds (30 s when 0).
    pub fn receive_loop_timeout(&self) -> (r: u128)
        ensures
            r == self.receive_loop_spec(),
    {
        if self.receive_loop_timeout == 0 {
            DEFAULT_RECEIVE_LOOP_TIMEOUT
        } else {
            self.receive_loop_timeout
        }
    }

    /// The liveness backstop in milliseconds (90 s when 0).
    pub fn connection_liveness_timeout(&self) -> (r: u128)
        ensures
            r == self.liveness_spec(),
    {
        if self.connection_liveness_timeout == 0 {
            DEFAULT_CONNECTION_LIVENESS_TIMEOUT
        } else {
            self.connection_liveness_timeout
        }
    }
}

} // verus!
