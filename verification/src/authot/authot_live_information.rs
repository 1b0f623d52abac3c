use vstd::prelude::*;

verus! {

/// The state of a live transcription stream, as the Authot service reports
/// it when a stream is created or queried.
pub struct AuthotLiveInformation {
    pub id: Option<u32>,
    pub language: Option<String>,
    pub language_to: Option<String>,
    pub message: Option<String>,
    pub status: u8,
    pub stream_state: i32,
    pub stream_status: Option<String>,
    pub translation: Option<bool>,
    pub url: Option<String>,
}

/// The wait between two queries of a stream that is not ready yet.
pub const LIVE_POLL_INTERVAL_MS: u64 = 2000;

impl AuthotLiveInformation {
    /// The stream is ready to receive audio once the service reports the
    /// stream state `0`; until then the worker keeps polling it.
    pub fn is_stream_ready(&self) -> (ready: bool)
        ensures
            ready == (self.stream_state == 0),
    {
        self.stream_state == 0
    }
}

} // verus!
