use quietwatch::{
    device_line, device_report, parse_command, unknown_arguments_message, AudioDevice, CliCommand,
    DeviceKind, NullBackend,
};

fn args(words: &[&str]) -> Vec<String> {
    words.iter().map(|word| word.to_string()).collect()
}

#[test]
fn commands_from_arguments() {
    assert_eq!(parse_command(&args(&[])), CliCommand::Status);
    assert_eq!(parse_command(&args(&["--help"])), CliCommand::Help);
    assert_eq!(parse_command(&args(&["-h"])), CliCommand::Help);
    assert_eq!(parse_command(&args(&["--devices"])), CliCommand::Devices);
    assert_eq!(parse_command(&args(&["--devices", "x"])), CliCommand::Unrecognized);
    assert_eq!(parse_command(&args(&["--version"])), CliCommand::Unrecognized);
    assert_eq!(parse_command(&args(&["--help", "--devices"])), CliCommand::Unrecognized);
}

#[test]
fn unknown_arguments_are_joined_with_spaces() {
    assert_eq!(unknown_arguments_message(&args(&["a", "bc"])), "unknown arguments: a bc");
    assert_eq!(unknown_arguments_message(&args(&["--x"])), "unknown arguments: --x");
    assert_eq!(unknown_arguments_message(&args(&[])), "unknown arguments: ");
}

#[test]
fn device_lines_mark_defaults() {
    let device = AudioDevice::new("null-in", "Null Input", DeviceKind::Input, true);
    assert_eq!(device_line(&device), "  [Input] null-in — Null Input (default)");
    let device = AudioDevice::new("null-loopback", "Null Loopback", DeviceKind::Loopback, false);
    assert_eq!(device_line(&device), "  [Loopback] null-loopback — Null Loopback");
    assert_eq!(DeviceKind::Output.label(), format!("{:?}", DeviceKind::Output));
}

#[test]
fn null_device_report() {
    let devices = NullBackend.list_devices().expect("devices");
    let lines = device_report(NullBackend.name(), &devices);
    assert_eq!(
        lines,
        vec![
            "Devices via `null` backend:".to_string(),
            "  [Input] null-in — Null Input (default)".to_string(),
            "  [Output] null-out — Null Output (default)".to_string(),
            "  [Loopback] null-loopback — Null Loopback".to_string(),
        ]
    );
}
