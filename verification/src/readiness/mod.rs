//! Client-side AIP readiness: health probes and the polling that waits for
//! an actor or a gateway route to answer them.

pub mod gate;
pub mod health_probe;
