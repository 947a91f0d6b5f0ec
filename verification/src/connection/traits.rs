//! The watcher of raw wire bytes that the connection layer reports to, and
//! an implementation that does nothing.

use vstd::prelude::*;

verus! {

/// Sees every frame as it is sent and received.
pub trait WireHook: Send + Sync + 'static {
    fn on_send(&self, raw: &[u8]);

    fn on_receive(&self, raw: &[u8]);
}

/// A wire watcher that ignores everything.
pub struct NoOpWireHook;

impl WireHook for NoOpWireHook {
    fn on_send(&self, raw: &[u8]) {
    }

    fn on_receive(&self, raw: &[u8]) {
    }
}

} // verus!
