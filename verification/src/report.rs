use vstd::prelude::*;

use crate::device::{AudioDevice, AudioDeviceView, DeviceKind};

verus! {

/// The label under which a device kind is listed.
pub open spec fn kind_label(kind: DeviceKind) -> Seq<char> {
    match kind {
        DeviceKind::Input => "Input"@,
        DeviceKind::Output => "Output"@,
        DeviceKind::Loopback => "Loopback"@,
    }
}

impl DeviceKind {
    /// The label under which this kind is listed.
    pub fn label(self) -> (label: &'static str)
        ensures
            label@ == kind_label(self),
    {
        match self {
            DeviceKind::Input => "Input",
            DeviceKind::Output => "Output",
            DeviceKind::Loopback => "Loopback",
        }
    }
}

/// One line of a device listing: kind, id, name, and a marker on defaults.
pub open spec fn listing_line(device: AudioDeviceView) -> Seq<char> {
    "  ["@ + kind_label(device.kind) + "] "@ + device.id + " — "@ + device.name + if device.is_default {
        " (default)"@
    } else {
        ""@
    }
}

/// First line of a device listing, naming the backend asked.
pub open spec fn listing_header(backend_name: Seq<char>) -> Seq<char> {
    "Devices via `"@ + backend_name + "` backend:"@
}

/// The listing line for `device`.
pub fn device_line(device: &AudioDevice) -> (line: String)
    ensures
        line@ == listing_line(device@),
        !device.is_default ==> line@ == "  ["@ + kind_label(device.kind) + "] "@ + device.id@
            + " — "@ + device.name@,
        device.is_default ==> line@ == "  ["@ + kind_label(device.kind) + "] "@ + device.id@
            + " — "@ + device.name@ + " (default)"@,
{
    let mut line = "  [".to_owned();
    line.append(device.kind.label());
    line.append("] ");
    line.append(device.id.as_str());
    line.append(" — ");
    line.append(device.name.as_str());
    if device.is_default {
        line.append(" (default)");
    }
    proof {
        reveal_strlit("");
        assert(line@ =~= listing_line(device@));
    }
    line
}

/// The lines printed for `devices` reported by the backend `backend_name`:
/// a header, then one line per device in order.
pub fn device_report(backend_name: &str, devices: &Vec<AudioDevice>) -> (lines: Vec<String>)
    ensures
        lines@.len() == devices@.len() + 1,
        lines@[0]@ == listing_header(backend_name@),
        lines@[0]@ == "Devices via `"@ + backend_name@ + "` backend:"@,
        forall|i: int| 0 <= i < devices@.len() ==> #[trigger] lines@[i + 1]@ == listing_line(devices@[i]@),
{
    let mut lines: Vec<String> = Vec::new();
    let mut header = "Devices via `".to_owned();
    header.append(backend_name);
    header.append("` backend:");
    lines.push(header);
    let mut i: usize = 0;
    while i < devices.len()
        invariant
            0 <= i <= devices@.len(),
            lines@.len() == i + 1,
            lines@[0]@ == listing_header(backend_name@),
            forall|j: int| 0 <= j < i ==> #[trigger] lines@[j + 1]@ == listing_line(devices@[j]@),
        decreases devices@.len() - i,
    {
        lines.push(device_line(&devices[i]));
        i = i + 1;
    }
    lines
}

} // verus!
