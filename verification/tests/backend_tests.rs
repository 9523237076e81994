use quietwatch::{
    native_backend_name, platform_backend_name, AudioSession, CoreAudioBackend, CoreAudioSession,
    PipeWireBackend, PipeWireSession, QuietWatchError, SessionConfig, StreamConfig, TargetOs,
    WasapiBackend, WasapiSession,
};

const ALL: [TargetOs; 4] = [TargetOs::MacOs, TargetOs::Windows, TargetOs::Linux, TargetOs::Other];

#[test]
fn platform_names_per_target() {
    assert_eq!(platform_backend_name(TargetOs::MacOs), "coreaudio");
    assert_eq!(platform_backend_name(TargetOs::Windows), "wasapi");
    assert_eq!(platform_backend_name(TargetOs::Linux), "pipewire");
    assert_eq!(platform_backend_name(TargetOs::Other), "unsupported");
}

#[test]
fn native_backend_matches_platform_backend() {
    for os in ALL {
        if os == TargetOs::Other {
            assert_eq!(native_backend_name(os), "null");
        } else {
            assert_eq!(native_backend_name(os), platform_backend_name(os));
        }
    }
}

#[test]
fn pipewire_lists_only_on_linux() {
    let backend = PipeWireBackend::new();
    assert_eq!(backend.name(), "pipewire");
    for os in ALL {
        let listed = backend.list_devices_for(os);
        assert_eq!(listed.is_ok(), platform_backend_name(os) == backend.name());
        match listed {
            Ok(devices) => assert!(devices.is_empty()),
            Err(error) => assert_eq!(error, QuietWatchError::UnsupportedPlatform("pipewire")),
        }
    }
}

#[test]
fn coreaudio_lists_only_on_macos() {
    let backend = CoreAudioBackend::default();
    assert_eq!(backend.name(), "coreaudio");
    for os in ALL {
        let listed = backend.list_devices_for(os);
        assert_eq!(listed.is_ok(), platform_backend_name(os) == backend.name());
        if let Err(error) = listed {
            assert_eq!(error, QuietWatchError::UnsupportedPlatform("coreaudio"));
        }
    }
}

#[test]
fn wasapi_lists_only_on_windows() {
    let backend = WasapiBackend::new();
    assert_eq!(backend.name(), "wasapi");
    for os in ALL {
        let listed = backend.list_devices_for(os);
        assert_eq!(listed.is_ok(), platform_backend_name(os) == backend.name());
        if let Err(error) = listed {
            assert_eq!(error, QuietWatchError::UnsupportedPlatform("wasapi"));
        }
    }
}

#[test]
fn platform_defaults_are_not_found() {
    let missing_out = QuietWatchError::DeviceNotFound("default-output".to_string());
    let missing_in = QuietWatchError::DeviceNotFound("default-input".to_string());
    assert_eq!(PipeWireBackend::new().default_output().unwrap_err(), missing_out);
    assert_eq!(PipeWireBackend::new().default_input().unwrap_err(), missing_in);
    assert_eq!(CoreAudioBackend::new().default_output().unwrap_err(), missing_out);
    assert_eq!(CoreAudioBackend::new().default_input().unwrap_err(), missing_in);
    assert_eq!(WasapiBackend::new().default_output().unwrap_err(), missing_out);
    assert_eq!(WasapiBackend::new().default_input().unwrap_err(), missing_in);
}

#[test]
fn platform_sessions_are_not_wired() {
    let config = SessionConfig::default();
    assert_eq!(
        PipeWireBackend::new().open_session_for(&config, TargetOs::Linux).err(),
        Some(QuietWatchError::Backend("PipeWire session is not wired yet".to_string()))
    );
    assert_eq!(
        PipeWireBackend::new().open_session_for(&config, TargetOs::MacOs).err(),
        Some(QuietWatchError::UnsupportedPlatform("pipewire"))
    );
    assert_eq!(
        CoreAudioBackend::new().open_session_for(&config, TargetOs::MacOs).err(),
        Some(QuietWatchError::Backend("CoreAudio session is not wired yet".to_string()))
    );
    assert_eq!(
        CoreAudioBackend::new().open_session_for(&config, TargetOs::Other).err(),
        Some(QuietWatchError::UnsupportedPlatform("coreaudio"))
    );
    assert_eq!(
        WasapiBackend::new().open_session_for(&config, TargetOs::Windows).err(),
        Some(QuietWatchError::Backend("WASAPI session is not wired yet".to_string()))
    );
    assert_eq!(
        WasapiBackend::new().open_session_for(&config, TargetOs::Linux).err(),
        Some(QuietWatchError::UnsupportedPlatform("wasapi"))
    );
}

#[test]
fn platform_sessions_start_and_stop() {
    let stream = StreamConfig { sample_rate: 96_000, channels: 8, buffer_frames: 128 };

    let mut pipewire = PipeWireSession::new(stream);
    assert!(!pipewire.is_running());
    pipewire.start().expect("start");
    assert!(pipewire.is_running());
    pipewire.stop().expect("stop");
    assert!(!pipewire.is_running());
    assert_eq!(pipewire.stream_config(), stream);

    let mut coreaudio = CoreAudioSession::new(stream);
    coreaudio.start().expect("start");
    assert!(coreaudio.is_running());
    coreaudio.stop().expect("stop");
    assert!(!coreaudio.is_running());
    assert_eq!(coreaudio.stream_config(), stream);

    let mut wasapi = WasapiSession::new(stream);
    wasapi.stop().expect("stop");
    assert!(!wasapi.is_running());
    wasapi.start().expect("start");
    assert!(wasapi.is_running());
    assert_eq!(wasapi.stream_config(), stream);
}
