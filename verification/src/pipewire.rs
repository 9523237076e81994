use vstd::prelude::*;

use crate::config::SessionConfig;
use crate::device::AudioDevice;
use crate::error::{ErrorView, QuietWatchError};
use crate::host::TargetOs;
use crate::session::AudioSession;
use crate::types::StreamConfig;

verus! {

/// PipeWire backend. A filter graph (capture → QuietWatch → playback) will live here.
pub struct PipeWireBackend;

impl PipeWireBackend {
    pub fn new() -> (backend: Self)
        ensures
            backend == PipeWireBackend,
    {
        PipeWireBackend
    }

    pub fn name(&self) -> (name: &'static str)
        ensures
            name@ == "pipewire"@,
    {
        "pipewire"
    }

    /// Devices PipeWire reports in a build for `host`: none yet on Linux, and
    /// `UnsupportedPlatform` on any other system.
    pub fn list_devices_for(&self, host: TargetOs) -> (result: Result<Vec<AudioDevice>, QuietWatchError>)
        ensures
            match result {
                Ok(devices) => host == TargetOs::Linux && devices@.len() == 0,
                Err(e) => host != TargetOs::Linux && e@ == ErrorView::UnsupportedPlatform("pipewire"@),
            },
    {
        match host {
            TargetOs::Linux => Ok(Vec::new()),
            _ => Err(QuietWatchError::UnsupportedPlatform("pipewire")),
        }
    }

    /// No default output is known yet.
    pub fn default_output(&self) -> (result: Result<AudioDevice, QuietWatchError>)
        ensures
            result matches Err(e) && e@ == ErrorView::DeviceNotFound("default-output"@),
    {
        Err(QuietWatchError::DeviceNotFound("default-output".to_owned()))
    }

    /// No default input is known yet.
    pub fn default_input(&self) -> (result: Result<AudioDevice, QuietWatchError>)
        ensures
            result matches Err(e) && e@ == ErrorView::DeviceNotFound("default-input"@),
    {
        Err(QuietWatchError::DeviceNotFound("default-input".to_owned()))
    }

    /// Sessions cannot be opened yet: on Linux this is a backend error, on
    /// any other system the backend is unsupported.
    pub fn open_session_for(&self, config: &SessionConfig, host: TargetOs) -> (result: Result<
        PipeWireSession,
        QuietWatchError,
    >)
        ensures
            result matches Err(e) && if host == TargetOs::Linux {
                e@ == ErrorView::Backend("PipeWire session is not wired yet"@)
            } else {
                e@ == ErrorView::UnsupportedPlatform("pipewire"@)
            },
    {
        match host {
            TargetOs::Linux => Err(QuietWatchError::Backend("PipeWire session is not wired yet".to_owned())),
            _ => Err(QuietWatchError::UnsupportedPlatform("pipewire")),
        }
    }
}

impl Default for PipeWireBackend {
    fn default() -> (backend: Self)
        ensures
            backend == PipeWireBackend,
    {
        Self::new()
    }
}

/// A PipeWire session: it records its stream and whether it was started.
pub struct PipeWireSession {
    stream: StreamConfig,
    running: bool,
}

impl PipeWireSession {
    /// A stopped session over `stream`.
    pub fn new(stream: StreamConfig) -> (session: Self)
        ensures
            session.opened_stream() == stream,
            !session.running(),
    {
        PipeWireSession { stream, running: false }
    }
}

impl AudioSession for PipeWireSession {
    closed spec fn opened_stream(&self) -> StreamConfig {
        self.stream
    }

    closed spec fn running(&self) -> bool {
        self.running
    }

    fn stream_config(&self) -> (stream: StreamConfig) {
        self.stream
    }

    fn start(&mut self) -> (result: Result<(), QuietWatchError>)
        ensures
            result is Ok,
    {
        self.running = true;
        Ok(())
    }

    fn stop(&mut self) -> (result: Result<(), QuietWatchError>)
        ensures
            result is Ok,
    {
        self.running = false;
        Ok(())
    }

    fn is_running(&self) -> (running: bool) {
        self.running
    }
}

} // verus!
