use vstd::prelude::*;

use crate::config::SessionConfig;
use crate::device::AudioDevice;
use crate::error::{ErrorView, QuietWatchError};
use crate::host::TargetOs;
use crate::session::AudioSession;
use crate::types::StreamConfig;

verus! {

/// WASAPI backend. Shared-mode loopback capture and exclusive or shared playback will live here.
pub struct WasapiBackend;

impl WasapiBackend {
    pub fn new() -> (backend: Self)
        ensures
            backend == WasapiBackend,
    {
        WasapiBackend
    }

    pub fn name(&self) -> (name: &'static str)
        ensures
            name@ == "wasapi"@,
    {
        "wasapi"
    }

    /// Devices WASAPI reports in a build for `host`: none yet on Windows, and
    /// `UnsupportedPlatform` on any other system.
    pub fn list_devices_for(&self, host: TargetOs) -> (result: Result<Vec<AudioDevice>, QuietWatchError>)
        ensures
            match result {
                Ok(devices) => host == TargetOs::Windows && devices@.len() == 0,
                Err(e) => host != TargetOs::Windows && e@ == ErrorView::UnsupportedPlatform("wasapi"@),
            },
    {
        match host {
            TargetOs::Windows => Ok(Vec::new()),
            _ => Err(QuietWatchError::UnsupportedPlatform("wasapi")),
        }
    }

    /// No default output is known yet.
    pub fn default_output(&self) -> (result: Result<AudioDevice, QuietWatchError>)
        ensures
            result matches Err(e) && e@ == ErrorView::DeviceNotFound("default-output"@),
    {
        Err(QuietWatchError::DeviceNotFound("default-output".to_owned()))
    }

    /// No default input is known yet.
    pub fn default_input(&self) -> (result: Result<AudioDevice, QuietWatchError>)
        ensures
            result matches Err(e) && e@ == ErrorView::DeviceNotFound("default-input"@),
    {
        Err(QuietWatchError::DeviceNotFound("default-input".to_owned()))
    }

    /// Sessions cannot be opened yet: on Windows this is a backend error, on
    /// any other system the backend is unsupported.
    pub fn open_session_for(&self, config: &SessionConfig, host: TargetOs) -> (result: Result<
        WasapiSession,
        QuietWatchError,
    >)
        ensures
            result matches Err(e) && if host == TargetOs::Windows {
                e@ == ErrorView::Backend("WASAPI session is not wired yet"@)
            } else {
                e@ == ErrorView::UnsupportedPlatform("wasapi"@)
            },
    {
        match host {
            TargetOs::Windows => Err(QuietWatchError::Backend("WASAPI session is not wired yet".to_owned())),
            _ => Err(QuietWatchError::UnsupportedPlatform("wasapi")),
        }
    }
}

impl Default for WasapiBackend {
    fn default() -> (backend: Self)
        ensures
            backend == WasapiBackend,
    {
        Self::new()
    }
}

/// A WASAPI session: it records its stream and whether it was started.
pub struct WasapiSession {
    stream: StreamConfig,
    running: bool,
}

impl WasapiSession {
    /// A stopped session over `stream`.
    pub fn new(stream: StreamConfig) -> (session: Self)
        ensures
            session.opened_stream() == stream,
            !session.running(),
    {
        WasapiSession { stream, running: false }
    }
}

impl AudioSession for WasapiSession {
    closed spec fn opened_stream(&self) -> StreamConfig {
        self.stream
    }

    closed spec fn running(&self) -> bool {
        self.running
    }

    fn stream_config(&self) -> (stream: StreamConfig) {
        self.stream
    }

    fn start(&mut self) -> (result: Result<(), QuietWatchError>)
        ensures
            result is Ok,
    {
        self.running = true;
        Ok(())
    }

    fn stop(&mut self) -> (result: Result<(), QuietWatchError>)
        ensures
            result is Ok,
    {
        self.running = false;
        Ok(())
    }

    fn is_running(&self) -> (running: bool) {
        self.running
    }
}

} // verus!
