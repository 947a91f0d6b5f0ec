//! Verified core of the Pod-OS gateway client: wire framing, header
//! construction, message decoding and validation, configuration, and the
//! decisions of the transport, the client and the readiness checks.

pub mod client;
pub mod config;
pub mod config_loaders;
pub mod connection;
pub mod errors;
pub mod health;
pub mod knowledge;
pub mod log;
pub mod message;
pub mod readiness;
pub mod text;

pub use client::{err_connection_lost, ConnectionState};
pub use config::Config;
pub use config_loaders::{config_from_env, config_from_ini};
pub use errors::{ErrCode, GatewayDError};
pub use health::build_status_health_reply_for;
pub use log::{Level, NoOpLogger, TracingLogger};
pub use message::decoder::decode_message;
pub use message::encoder::encode_message;
pub use message::intents::Intent;
pub use message::types::{Envelope, Message, SocketMessage};
pub use message::utils::{get_timestamp, timestamp_from_duration};
pub use readiness::gate::{ActorAIPReadinessConfig, GatewayReadinessProbe};
pub use readiness::health_probe::{
    actor_health_probe_succeeded, build_actor_health_probe_message,
    is_neural_memory_backed_for_health_probe,
};
