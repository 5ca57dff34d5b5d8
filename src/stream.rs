use vstd::prelude::*;
use std::sync::Arc;
use std::sync::atomic::{AtomicBool, Ordering};

verus! {

/// Shared liveness flag of one running stream.
///
/// The controller keeps one handle and gives a second one, made by
/// `worker_handle`, to the worker. Either side may clear the flag: the
/// controller to ask the worker to stop, the worker when it has ended on its own.
pub struct StreamHandle {
    is_streaming: Arc<AtomicBool>,
}

impl StreamHandle {
    /// A fresh flag, raised. Each stream gets its own; a flag is never reused.
    pub fn new() -> (r: StreamHandle) {
        StreamHandle { is_streaming: Arc::new(AtomicBool::new(true)) }
    }

    /// Asks the stream to stop. Safe to call any number of times, from any thread.
    pub fn stop(&self) {
        self.is_streaming.store(false, Ordering::Relaxed);
    }

    /// Whether the stream is still live. Another thread may clear the flag at
    /// any moment, so nothing is promised of the answer.
    pub fn is_active(&self) -> (r: bool) {
        self.is_streaming.load(Ordering::Relaxed)
    }

    /// A second handle on the same flag, for the worker.
    pub fn worker_handle(&self) -> (r: StreamHandle) {
        StreamHandle { is_streaming: Arc::clone(&self.is_streaming) }
    }
}

} // verus!
