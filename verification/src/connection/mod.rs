//! The connection layer: addresses, the transport's framing decisions and
//! retries.

pub mod resolver;
pub mod retry;
pub mod traits;
pub mod transport;
