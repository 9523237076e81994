use vstd::prelude::*;

use crate::config::SessionConfig;
use crate::device::{device_views, first_of_kind, AudioDevice, AudioDeviceView, DeviceKind};
use crate::error::{ErrorView, QuietWatchError};
use crate::session::AudioSession;
use crate::types::StreamConfig;

verus! {

/// In-process backend that never touches hardware.
pub struct NullBackend;

/// The three stub devices the null backend offers, in order.
pub open spec fn null_devices() -> Seq<AudioDeviceView> {
    seq![
        AudioDeviceView { id: "null-in"@, name: "Null Input"@, kind: DeviceKind::Input, is_default: true },
        AudioDeviceView { id: "null-out"@, name: "Null Output"@, kind: DeviceKind::Output, is_default: true },
        AudioDeviceView {
            id: "null-loopback"@,
            name: "Null Loopback"@,
            kind: DeviceKind::Loopback,
            is_default: false,
        },
    ]
}

/// Index of the first device of `kind` in `devices`.
fn position_of_kind(devices: &Vec<AudioDevice>, kind: DeviceKind) -> (found: Option<usize>)
    ensures
        match found {
            Some(i) => first_of_kind(device_views(devices@), kind) == Some(i as int),
            None => first_of_kind(device_views(devices@), kind) is None,
        },
{
    let ghost views = device_views(devices@);
    let mut i: usize = 0;
    while i < devices.len()
        invariant
            0 <= i <= devices.len(),
            views == device_views(devices@),
            forall|j: int| 0 <= j < i ==> views[j].kind != kind,
        decreases devices.len() - i,
    {
        if devices[i].kind == kind {
            assert(views[i as int].kind == kind);
            let ghost c = choose|c: int|
                0 <= c < views.len() && views[c].kind == kind && forall|j: int|
                    0 <= j < c ==> views[j].kind != kind;
            assert(c == i as int);
            return Some(i);
        }
        i = i + 1;
    }
    assert(forall|j: int| 0 <= j < views.len() ==> views[j].kind != kind);
    None
}

impl NullBackend {
    pub fn name(&self) -> (name: &'static str)
        ensures
            name@ == "null"@,
    {
        "null"
    }

    /// The stub input, output and loopback devices.
    pub fn list_devices(&self) -> (result: Result<Vec<AudioDevice>, QuietWatchError>)
        ensures
            result matches Ok(devices) && device_views(devices@) == null_devices(),
    {
        let mut devices: Vec<AudioDevice> = Vec::new();
        devices.push(AudioDevice::new("null-in", "Null Input", DeviceKind::Input, true));
        devices.push(AudioDevice::new("null-out", "Null Output", DeviceKind::Output, true));
        devices.push(AudioDevice::new("null-loopback", "Null Loopback", DeviceKind::Loopback, false));
        assert(device_views(devices@) =~= null_devices());
        Ok(devices)
    }

    /// The first listed device of `kind`, or `DeviceNotFound(missing)`.
    fn first_listed(&self, kind: DeviceKind, missing: &str) -> (result: Result<AudioDevice, QuietWatchError>)
        ensures
            match first_of_kind(null_devices(), kind) {
                Some(i) => result matches Ok(device) && device@ == null_devices()[i],
                None => result matches Err(e) && e@ == ErrorView::DeviceNotFound(missing@),
            },
    {
        let mut devices = match self.list_devices() {
            Ok(devices) => devices,
            Err(e) => return Err(e),
        };
        match position_of_kind(&devices, kind) {
            Some(i) => {
                let ghost listed = device_views(devices@);
                let device = devices.remove(i);
                assert(listed[i as int] == device@);
                Ok(device)
            },
            None => Err(QuietWatchError::DeviceNotFound(missing.to_owned())),
        }
    }

    /// The first listed output device.
    pub fn default_output(&self) -> (result: Result<AudioDevice, QuietWatchError>)
        ensures
            result matches Ok(device) && device@ == null_devices()[1],
    {
        let result = self.first_listed(DeviceKind::Output, "null-out");
        proof {
            let s = null_devices();
            assert(s[1].kind == DeviceKind::Output);
            assert(s[0].kind != DeviceKind::Output);
        }
        result
    }

    /// The first listed input device.
    pub fn default_input(&self) -> (result: Result<AudioDevice, QuietWatchError>)
        ensures
            result matches Ok(device) && device@ == null_devices()[0],
    {
        let result = self.first_listed(DeviceKind::Input, "null-in");
        proof {
            let s = null_devices();
            assert(s[0].kind == DeviceKind::Input);
        }
        result
    }

    /// Opens a session over `config.stream` that holds on to `process`.
    /// The session starts stopped.
    pub fn open_session<P: Send>(&self, config: &SessionConfig, process: P) -> (result: Result<
        NullSession<P>,
        QuietWatchError,
    >)
        ensures
            result matches Ok(session) && session.opened_stream() == config.stream
                && !session.running() && session.held_process() == process,
    {
        Ok(NullSession { stream: config.stream, running: false, process })
    }
}

/// Session of the null backend: it keeps the processing callback it was
/// given and only records whether it was started.
pub struct NullSession<P> {
    stream: StreamConfig,
    running: bool,
    #[allow(dead_code)]
    process: P,
}

impl<P> NullSession<P> {
    /// The processing callback the session was opened with.
    pub closed spec fn held_process(&self) -> P {
        self.process
    }
}

impl<P: Send> AudioSession for NullSession<P> {
    closed spec fn opened_stream(&self) -> StreamConfig {
        self.stream
    }

    closed spec fn running(&self) -> bool {
        self.running
    }

    fn stream_config(&self) -> (stream: StreamConfig) {
        self.stream
    }

    fn start(&mut self) -> (result: Result<(), QuietWatchError>)
        ensures
            result is Ok,
            final(self).held_process() == old(self).held_process(),
    {
        self.running = true;
        Ok(())
    }

    fn stop(&mut self) -> (result: Result<(), QuietWatchError>)
        ensures
            result is Ok,
            final(self).held_process() == old(self).held_process(),
    {
        self.running = false;
        Ok(())
    }

    fn is_running(&self) -> (running: bool) {
        self.running
    }
}

} // verus!
