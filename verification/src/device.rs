use vstd::prelude::*;

verus! {

/// Which direction a device carries audio.
#[derive(Clone, Copy, Debug, PartialEq, Eq, Structural)]
pub enum DeviceKind {
    Input,
    Output,
    /// Captures what the system is playing.
    Loopback,
}

/// One capture or playback endpoint as a backend reports it.
#[derive(Clone, Debug, PartialEq, Eq)]
pub struct AudioDevice {
    pub id: String,
    pub name: String,
    pub kind: DeviceKind,
    pub is_default: bool,
}

/// A device with its text fields as character sequences.
pub struct AudioDeviceView {
    pub id: Seq<char>,
    pub name: Seq<char>,
    pub kind: DeviceKind,
    pub is_default: bool,
}

impl View for AudioDevice {
    type V = AudioDeviceView;

    open spec fn view(&self) -> AudioDeviceView {
        AudioDeviceView { id: self.id@, name: self.name@, kind: self.kind, is_default: self.is_default }
    }
}

/// The views of a list of devices, in order.
pub open spec fn device_views(devices: Seq<AudioDevice>) -> Seq<AudioDeviceView> {
    devices.map_values(|device: AudioDevice| device@)
}

impl AudioDevice {
    /// A device description from its id, display name, kind and default flag.
    pub fn new(id: &str, name: &str, kind: DeviceKind, is_default: bool) -> (device: Self)
        ensures
            device@ == (AudioDeviceView { id: id@, name: name@, kind, is_default }),
    {
        AudioDevice { id: id.to_owned(), name: name.to_owned(), kind, is_default }
    }
}

/// Position of the first device of `kind` in `devices`, if any.
pub open spec fn first_of_kind(devices: Seq<AudioDeviceView>, kind: DeviceKind) -> Option<int> {
    if exists|i: int| 0 <= i < devices.len() && devices[i].kind == kind {
        Some(
            choose|i: int|
                0 <= i < devices.len() && devices[i].kind == kind && forall|j: int|
                    0 <= j < i ==> devices[j].kind != kind,
        )
    } else {
        None
    }
}

} // verus!
