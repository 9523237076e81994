use quietwatch::{AudioDevice, AudioSession, DeviceKind, NullBackend, QuietWatchError, SessionConfig};

type ProcessCallback = Box<dyn FnMut(&mut [f32]) + Send>;

#[test]
fn lists_stub_devices_and_opens_a_session() {
    let backend = NullBackend;
    let devices = backend.list_devices().expect("devices");
    assert_eq!(devices.len(), 3);

    let process: ProcessCallback = Box::new(|_samples| {});
    let mut session = backend
        .open_session(&SessionConfig::default(), process)
        .expect("session");
    session.start().expect("start");
    assert!(session.is_running());
    session.stop().expect("stop");
    assert!(!session.is_running());
}

#[test]
fn device_new_copies_its_fields() {
    let device = AudioDevice::new("hw:0", "Speakers", DeviceKind::Output, true);
    assert_eq!(device.id, "hw:0");
    assert_eq!(device.name, "Speakers");
    assert_eq!(device.kind, DeviceKind::Output);
    assert!(device.is_default);
}

#[test]
fn null_backend_lists_input_output_loopback() {
    let devices = NullBackend.list_devices().expect("devices");
    assert_eq!(devices[0], AudioDevice::new("null-in", "Null Input", DeviceKind::Input, true));
    assert_eq!(devices[1], AudioDevice::new("null-out", "Null Output", DeviceKind::Output, true));
    assert_eq!(
        devices[2],
        AudioDevice::new("null-loopback", "Null Loopback", DeviceKind::Loopback, false)
    );
    assert_eq!(NullBackend.name(), "null");
}

#[test]
fn null_defaults_are_listed_devices() {
    let devices = NullBackend.list_devices().expect("devices");
    let output = NullBackend.default_output().expect("output");
    let input = NullBackend.default_input().expect("input");
    assert_eq!(output.id, "null-out");
    assert_eq!(output.kind, DeviceKind::Output);
    assert_eq!(input.id, "null-in");
    assert_eq!(input.kind, DeviceKind::Input);
    assert!(devices.contains(&output));
    assert!(devices.contains(&input));
}

#[test]
fn null_session_keeps_the_requested_stream() {
    let mut config = SessionConfig::default();
    config.stream.sample_rate = 44_100;
    config.stream.channels = 6;
    let process: ProcessCallback = Box::new(|samples| {
        for sample in samples.iter_mut() {
            *sample *= 0.5;
        }
    });
    let mut session = NullBackend.open_session(&config, process).expect("session");
    assert!(!session.is_running());
    assert_eq!(session.stream_config(), config.stream);
    session.start().expect("start");
    assert_eq!(session.stream_config(), config.stream);
    session.start().expect("start twice");
    assert!(session.is_running());
}

#[test]
fn error_messages_name_their_subject() {
    assert_eq!(
        QuietWatchError::UnsupportedPlatform("wasapi").message(),
        "audio backend `wasapi` is not available on this platform"
    );
    assert_eq!(
        QuietWatchError::DeviceNotFound("null-out".to_string()).message(),
        "audio device not found: null-out"
    );
    assert_eq!(
        QuietWatchError::Backend("boom".to_string()).message(),
        "audio backend error: boom"
    );
    assert_eq!(
        QuietWatchError::InvalidConfig("ratio".to_string()).message(),
        "invalid config: ratio"
    );
}
