use vstd::prelude::*;

use crate::types::{StreamConfig, DEFAULT_BUFFER_FRAMES, DEFAULT_CHANNELS, DEFAULT_SAMPLE_RATE};

verus! {

/// Capture and playback devices plus the stream format for a live session.
#[derive(Clone, Debug, PartialEq, Eq)]
pub struct SessionConfig {
    pub capture_device_id: Option<String>,
    pub playback_device_id: Option<String>,
    pub stream: StreamConfig,
}

impl Default for SessionConfig {
    /// No device chosen (the backend picks its defaults) and the standard stream.
    fn default() -> (config: Self)
        ensures
            config.capture_device_id.is_none(),
            config.playback_device_id.is_none(),
            config.stream == StreamConfig::standard(),
    {
        SessionConfig {
            capture_device_id: None,
            playback_device_id: None,
            stream: StreamConfig {
                sample_rate: DEFAULT_SAMPLE_RATE,
                channels: DEFAULT_CHANNELS,
                buffer_frames: DEFAULT_BUFFER_FRAMES,
            },
        }
    }
}

} // verus!
