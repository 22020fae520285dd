use vstd::prelude::*;

pub mod runtime;
pub mod pulse;
pub mod prober;
pub mod orchestrator;
pub mod translate;

verus! {

/// Adapter configuration, read once at boot and never changed.
#[derive(Clone, Debug)]
pub struct Configuration {
    /// Path of the application entry point.
    pub handler: String,
    /// Base URL of the application, also probed for readiness.
    pub server_url: String,
    /// Whether responses are relayed incrementally rather than buffered.
    pub use_stream: bool,
}

/// How a downstream response body reaches the caller.
#[derive(Clone, Copy, Debug, PartialEq, Eq, Structural)]
pub enum ResponseMode {
    Buffered,
    Streamed,
}

/// Responses are buffered unless streaming is asked for.
pub fn default_use_stream() -> (r: bool)
    ensures
        r == false,
{
    false
}

/// Hook for linking a writable cache directory into the application tree; the
/// adapter links nothing.
pub fn create_symlinks() {
}

impl Configuration {
    /// The response mode that the flag selects.
    pub fn response_mode(&self) -> (r: ResponseMode)
        ensures
            r == (if self.use_stream {
                ResponseMode::Streamed
            } else {
                ResponseMode::Buffered
            }),
    {
        if self.use_stream {
            ResponseMode::Streamed
        } else {
            ResponseMode::Buffered
        }
    }
}

} // verus!
