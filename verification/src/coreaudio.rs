use vstd::prelude::*;

use crate::config::SessionConfig;
use crate::device::AudioDevice;
use crate::error::{ErrorView, QuietWatchError};
use crate::host::TargetOs;
use crate::session::AudioSession;
use crate::types::StreamConfig;

verus! {

/// CoreAudio backend. Capture of system output and playback to the selected device will live here.
pub struct CoreAudioBackend;

impl CoreAudioBackend {
    pub fn new() -> (backend: Self)
        ensures
            backend == CoreAudioBackend,
    {
        CoreAudioBackend
    }

    pub fn name(&self) -> (name: &'static str)
        ensures
            name@ == "coreaudio"@,
    {
        "coreaudio"
    }

    /// Devices CoreAudio reports in a build for `host`: none yet on macOS, and
    /// `UnsupportedPlatform` on any other system.
    pub fn list_devices_for(&self, host: TargetOs) -> (result: Result<Vec<AudioDevice>, QuietWatchError>)
        ensures
            match result {
                Ok(devices) => host == TargetOs::MacOs && devices@.len() == 0,
                Err(e) => host != TargetOs::MacOs && e@ == ErrorView::UnsupportedPlatform("coreaudio"@),
            },
    {
        match host {
            TargetOs::MacOs => Ok(Vec::new()),
            _ => Err(QuietWatchError::UnsupportedPlatform("coreaudio")),
        }
    }

    /// No default output is known yet.
    pub fn default_output(&self) -> (result: Result<AudioDevice, QuietWatchError>)
        ensures
            result matches Err(e) && e@ == ErrorView::DeviceNotFound("default-output"@),
    {
        Err(QuietWatchError::DeviceNotFound("default-output".to_owned()))
    }

    /// No default input is known yet.
    pub fn default_input(&self) -> (result: Result<AudioDevice, QuietWatchError>)
        ensures
            result matches Err(e) && e@ == ErrorView::DeviceNotFound("default-input"@),
    {
        Err(QuietWatchError::DeviceNotFound("default-input".to_owned()))
    }

    /// Sessions cannot be opened yet: on macOS this is a backend error, on
    /// any other system the backend is unsupported.
    pub fn open_session_for(&self, config: &SessionConfig, host: TargetOs) -> (result: Result<
        CoreAudioSession,
        QuietWatchError,
    >)
        ensures
            result matches Err(e) && if host == TargetOs::MacOs {
                e@ == ErrorView::Backend("CoreAudio session is not wired yet"@)
            } else {
                e@ == ErrorView::UnsupportedPlatform("coreaudio"@)
            },
    {
        match host {
            TargetOs::MacOs => Err(QuietWatchError::Backend("CoreAudio session is not wired yet".to_owned())),
            _ => Err(QuietWatchError::UnsupportedPlatform("coreaudio")),
        }
    }
}

impl Default for CoreAudioBackend {
    fn default() -> (backend: Self)
        ensures
            backend == CoreAudioBackend,
    {
        Self::new()
    }
}

/// A CoreAudio session, in place before HAL I/O exists: it records its stream and whether it was started.
pub struct CoreAudioSession {
    stream: StreamConfig,
    running: bool,
}

impl CoreAudioSession {
    /// A stopped session over `stream`.
    pub fn new(stream: StreamConfig) -> (session: Self)
        ensures
            session.opened_stream() == stream,
            !session.running(),
    {
        CoreAudioSession { stream, running: false }
    }
}

impl AudioSession for CoreAudioSession {
    closed spec fn opened_stream(&self) -> StreamConfig {
        self.stream
    }

    closed spec fn running(&self) -> bool {
        self.running
    }

    fn stream_config(&self) -> (stream: StreamConfig) {
        self.stream
    }

    fn start(&mut self) -> (result: Result<(), QuietWatchError>)
        ensures
            result is Ok,
    {
        self.running = true;
        Ok(())
    }

    fn stop(&mut self) -> (result: Result<(), QuietWatchError>)
        ensures
            result is Ok,
    {
        self.running = false;
        Ok(())
    }

    fn is_running(&self) -> (running: bool) {
        self.running
    }
}

} // verus!
