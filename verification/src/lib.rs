//! QuietWatch's portable core.
//!
//! QuietWatch levels movie and TV audio so loud action and quiet dialogue sit
//! at a chosen listening loudness. This crate holds what the leveling chain
//! and the platform backends share, with every operation proved against its
//! contract:
//!
//! - audio formats and stream settings (`layout`, `format`, `types`,
//!   `config`, `buffer`);
//! - device descriptions, sessions and backends (`device`, `session`,
//!   `null`, `pipewire`, `coreaudio`, `wasapi`, `host`);
//! - the integer side of metering: channel counts and the true-peak delay
//!   line (`loudness`, `delay`, `dialogue`);
//! - what the command-line tool decides and prints (`cli`, `report`);
//! - errors (`error`) and the properties tying operations together (`laws`).

pub mod buffer;
pub mod cli;
pub mod config;
pub mod coreaudio;
pub mod delay;
pub mod device;
pub mod dialogue;
pub mod error;
pub mod format;
pub mod host;
pub mod laws;
pub mod layout;
pub mod loudness;
pub mod null;
pub mod pipewire;
pub mod report;
pub mod session;
pub mod types;
pub mod wasapi;

pub use buffer::{interleaved_frames, whole_frames};
pub use cli::{parse_command, unknown_arguments_message, CliCommand};
pub use config::SessionConfig;
pub use coreaudio::{CoreAudioBackend, CoreAudioSession};
pub use delay::{DelayLines, FIR_TAPS, OVERSAMPLE, TAPS_PER_PHASE};
pub use device::{AudioDevice, AudioDeviceView, DeviceKind};
pub use dialogue::DialoguePresence;
pub use error::{ErrorView, QuietWatchError};
pub use format::AudioFormat;
pub use host::{native_backend_name, platform_backend_name, TargetOs};
pub use layout::ChannelLayout;
pub use loudness::LoudnessMeter;
pub use null::{NullBackend, NullSession};
pub use pipewire::{PipeWireBackend, PipeWireSession};
pub use report::{device_line, device_report};
pub use session::AudioSession;
pub use types::{StreamConfig, DEFAULT_BUFFER_FRAMES, DEFAULT_CHANNELS, DEFAULT_SAMPLE_RATE};
pub use wasapi::{WasapiBackend, WasapiSession};
