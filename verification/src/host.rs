use vstd::prelude::*;

use crate::coreaudio::CoreAudioBackend;
use crate::null::NullBackend;
use crate::pipewire::PipeWireBackend;
use crate::wasapi::WasapiBackend;

verus! {

/// The operating system a build targets, as far as backend choice goes.
#[derive(Clone, Copy, Debug, PartialEq, Eq, Structural)]
pub enum TargetOs {
    MacOs,
    Windows,
    Linux,
    /// Any system without a native backend.
    Other,
}

/// The backend name that belongs to each target.
pub open spec fn platform_name(os: TargetOs) -> Seq<char> {
    match os {
        TargetOs::MacOs => "coreaudio"@,
        TargetOs::Windows => "wasapi"@,
        TargetOs::Linux => "pipewire"@,
        TargetOs::Other => "unsupported"@,
    }
}

/// Name of the native audio backend on `os`: CoreAudio on macOS, WASAPI on
/// Windows, PipeWire on Linux, and `"unsupported"` elsewhere.
pub fn platform_backend_name(os: TargetOs) -> (name: &'static str)
    ensures
        name@ == platform_name(os),
{
    match os {
        TargetOs::MacOs => "coreaudio",
        TargetOs::Windows => "wasapi",
        TargetOs::Linux => "pipewire",
        TargetOs::Other => "unsupported",
    }
}

/// The name of the backend the command-line tool runs on for each target.
pub open spec fn native_name(os: TargetOs) -> Seq<char> {
    match os {
        TargetOs::MacOs => "coreaudio"@,
        TargetOs::Windows => "wasapi"@,
        TargetOs::Linux => "pipewire"@,
        TargetOs::Other => "null"@,
    }
}

/// Name of the backend the command-line tool uses on `os`: the platform's
/// own backend where one exists, the null backend elsewhere.
pub fn native_backend_name(os: TargetOs) -> (name: &'static str)
    ensures
        name@ == native_name(os),
{
    match os {
        TargetOs::MacOs => CoreAudioBackend::new().name(),
        TargetOs::Linux => PipeWireBackend::new().name(),
        TargetOs::Windows => WasapiBackend::new().name(),
        TargetOs::Other => NullBackend.name(),
    }
}

} // verus!
