//! Properties that tie several operations of the library together.

use vstd::prelude::*;

use crate::buffer::{frame_width, interleaved_layout, lemma_quotient_bounds};
use crate::cli::{command_for, CliCommand};
use crate::delay::effective_channels;
use crate::device::AudioDeviceView;
use crate::report::{kind_label, listing_header, listing_line};
use crate::device::{first_of_kind, DeviceKind};
use crate::host::{native_name, platform_name, TargetOs};
use crate::layout::ChannelLayout;
use crate::null::null_devices;
use crate::types::StreamConfig;

verus! {

/// Cutting a block of whole frames back into frames gives the same number of
/// frames: `frame_count(frames * channels) == frames`.
pub proof fn whole_frames_round_trip(config: StreamConfig, frames: nat)
    ensures
        config.frames_in(frames * config.frame_width()) == frames,
{
    let w = config.frame_width();
    assert(w > 0);
    vstd::arithmetic::div_mod::lemma_div_multiples_vanish(frames as int, w as int);
    assert(frames * w == w * frames) by (nonlinear_arith);
}

/// `frame_count` never counts a partial frame and never drops a whole one:
/// the frames it reports fit in the block, and one more frame would not.
pub proof fn frames_cover_block(config: StreamConfig, interleaved_len: nat)
    ensures
        config.frames_in(interleaved_len) * config.frame_width() <= interleaved_len,
        interleaved_len < (config.frames_in(interleaved_len) + 1) * config.frame_width(),
{
    let w = config.frame_width() as int;
    let n = interleaved_len as int;
    vstd::arithmetic::div_mod::lemma_fundamental_div_mod(n, w);
    let q = n / w;
    let r = n % w;
    assert(0 <= r < w);
    assert(q * w == w * q) by (nonlinear_arith);
    assert((q + 1) * w == q * w + w) by (nonlinear_arith);
}

/// Each fixed speaker layout has its conventional channel count, and an
/// unknown layout has exactly the count it was given.
pub proof fn layout_counts(count: usize)
    ensures
        ChannelLayout::Mono.count() == 1,
        ChannelLayout::Stereo.count() == 2,
        ChannelLayout::Surround51.count() == 6,
        ChannelLayout::Surround71.count() == 8,
        ChannelLayout::Unknown(count).count() == count,
{
}

/// The null backend's default output and default input are devices it
/// lists: the first listed device of each direction, both marked default.
pub proof fn null_defaults_are_listed()
    ensures
        first_of_kind(null_devices(), DeviceKind::Output) == Some(1int),
        null_devices()[1].kind == DeviceKind::Output,
        null_devices()[1].is_default,
        first_of_kind(null_devices(), DeviceKind::Input) == Some(0int),
        null_devices()[0].kind == DeviceKind::Input,
        null_devices()[0].is_default,
{
    let s = null_devices();
    assert(s[1].kind == DeviceKind::Output);
    assert(s[0].kind == DeviceKind::Input);
}

/// A platform backend lists devices exactly on the target whose native
/// backend carries its name; everywhere else it is unsupported.
pub proof fn backends_available_only_on_their_platform(host: TargetOs)
    ensures
        (host == TargetOs::Linux) <==> platform_name(host) == "pipewire"@,
        (host == TargetOs::MacOs) <==> platform_name(host) == "coreaudio"@,
        (host == TargetOs::Windows) <==> platform_name(host) == "wasapi"@,
{
    reveal_strlit("pipewire");
    reveal_strlit("coreaudio");
    reveal_strlit("wasapi");
    reveal_strlit("unsupported");
    assert("pipewire"@.len() == 8);
    assert("coreaudio"@.len() == 9);
    assert("wasapi"@.len() == 6);
    assert("unsupported"@.len() == 11);
}

/// On every target with a native backend the command-line tool runs on that
/// backend; elsewhere it falls back to the null backend rather than to a
/// backend that is unsupported.
pub proof fn native_backend_is_platform_backend(os: TargetOs)
    ensures
        os != TargetOs::Other ==> native_name(os) == platform_name(os),
        os == TargetOs::Other ==> native_name(os) == "null"@ && platform_name(os) != native_name(os),
{
    reveal_strlit("null");
    reveal_strlit("unsupported");
    assert("null"@.len() == 4);
    assert("unsupported"@.len() == 11);
}

/// A block accepted as interleaved audio consists of whole frames: its frame
/// count times its channel count is its length, with nothing left over.
pub proof fn interleaved_blocks_are_whole_frames(len: nat, channels: nat)
    ensures
        interleaved_layout(len, channels) matches Some(frames) ==> frames * channels == len,
        interleaved_layout(len, channels) is None ==> channels == 0 || len % channels != 0,
{
    if channels != 0 && len % channels == 0 {
        vstd::arithmetic::div_mod::lemma_fundamental_div_mod(len as int, channels as int);
        assert((len / channels) * channels == channels * (len / channels)) by (nonlinear_arith);
    }
}

/// For a stream with `c >= 1` channels, the frame count of `n` interleaved
/// samples is the number of whole `c`-sample frames in `n`: it fits in the
/// block and one more frame would not; `frames * c` samples are exactly
/// `frames` frames. A stream that claims no channels counts every sample.
pub proof fn frame_count_is_length_over_channels(config: StreamConfig, n: nat, frames: nat)
    ensures
        config.channels >= 1 ==> config.frames_in(n) * config.channels <= n,
        config.channels >= 1 ==> n < (config.frames_in(n) + 1) * config.channels,
        config.channels >= 1 ==> config.frames_in(frames * (config.channels as nat)) == frames,
        config.channels == 0 ==> config.frames_in(n) == n,
        n / frame_width(config.channels) == config.frames_in(n),
{
    if config.channels >= 1 {
        assert(config.frame_width() == config.channels as nat);
        lemma_quotient_bounds(n, config.channels as nat);
        whole_frames_round_trip(config, frames);
    } else {
        assert(n / 1nat == n);
    }
}

/// Only an argument list of exactly one word picks help, devices or an
/// explicit command: the empty list shows status, every list of two or more
/// words is unrecognized, and help is exactly `--help` or `-h` on its own.
pub proof fn commands_need_exactly_one_word(args: Seq<Seq<char>>)
    ensures
        args.len() == 0 <==> command_for(args) == CliCommand::Status,
        args.len() >= 2 ==> command_for(args) == CliCommand::Unrecognized,
        command_for(args) == CliCommand::Help <==> args.len() == 1 && (args[0] == "--help"@
            || args[0] == "-h"@),
        command_for(args) == CliCommand::Devices <==> args.len() == 1 && args[0] == "--devices"@,
{
    reveal_strlit("--devices");
    reveal_strlit("--help");
    reveal_strlit("-h");
    assert("--devices"@.len() == 9);
    assert("--help"@.len() == 6);
    assert("-h"@.len() == 2);
}

/// A listing line carries the `(default)` marker exactly for devices flagged
/// default: without the flag it ends with the device name, with the flag the
/// marker follows the name, and the rest of the line is the same either way.
pub proof fn default_marker_follows_flag(device: AudioDeviceView)
    ensures
        !device.is_default ==> listing_line(device) == "  ["@ + kind_label(device.kind) + "] "@
            + device.id + " — "@ + device.name,
        device.is_default ==> listing_line(device) == "  ["@ + kind_label(device.kind) + "] "@
            + device.id + " — "@ + device.name + " (default)"@,
        listing_line(AudioDeviceView { is_default: true, ..device }) == listing_line(
            AudioDeviceView { is_default: false, ..device },
        ) + " (default)"@,
{
    reveal_strlit("");
    let plain = "  ["@ + kind_label(device.kind) + "] "@ + device.id + " — "@ + device.name;
    assert(plain + ""@ =~= plain);
}

/// A delay line keeps a history for every channel it is asked for: any
/// nonzero count is kept as it is, and zero becomes one channel.
pub proof fn delay_lines_keep_every_channel(requested: usize)
    ensures
        requested >= 1 ==> effective_channels(requested) == requested,
        requested == 0 ==> effective_channels(requested) == 1,
        effective_channels(requested) >= 1,
{
}

/// The device report's header names the backend it was given, at a fixed
/// position, so different backends get different headers.
pub proof fn report_header_names_backend(name: Seq<char>, other: Seq<char>)
    ensures
        listing_header(name).len() == name.len() + 23,
        listing_header(name).subrange(13, 13 + name.len() as int) == name,
        listing_header(name) == listing_header(other) ==> name == other,
{
    reveal_strlit("Devices via `");
    reveal_strlit("` backend:");
    assert("Devices via `"@.len() == 13);
    assert("` backend:"@.len() == 10);
    let h = listing_header(name);
    assert(h.subrange(13, 13 + name.len() as int) =~= name);
    if listing_header(name) == listing_header(other) {
        let g = listing_header(other);
        assert(h.len() == name.len() + 23);
        assert(g.len() == other.len() + 23);
        assert(h.len() == g.len());
        assert(g.subrange(13, 13 + other.len() as int) =~= other);
        assert(name.len() == other.len());
    }
}

} // verus!
