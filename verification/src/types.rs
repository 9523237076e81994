use vstd::prelude::*;

use crate::buffer::{frame_width, whole_frames};

verus! {

/// Sample rate of a session when nothing else is asked for, in Hz.
pub const DEFAULT_SAMPLE_RATE: u32 = 48_000;

/// Channel count of a session when nothing else is asked for.
pub const DEFAULT_CHANNELS: u16 = 2;

/// Frames per device buffer when nothing else is asked for.
pub const DEFAULT_BUFFER_FRAMES: u32 = 512;

/// Rate, width and block size of a live stream.
#[derive(Clone, Copy, Debug, PartialEq, Eq, Structural)]
pub struct StreamConfig {
    pub sample_rate: u32,
    pub channels: u16,
    pub buffer_frames: u32,
}

impl StreamConfig {
    /// The stream settings a session uses unless told otherwise.
    pub open spec fn standard() -> StreamConfig {
        StreamConfig {
            sample_rate: DEFAULT_SAMPLE_RATE,
            channels: DEFAULT_CHANNELS,
            buffer_frames: DEFAULT_BUFFER_FRAMES,
        }
    }

    /// Samples per frame as the frame arithmetic sees them: a stream that
    /// claims no channels is counted as mono.
    pub open spec fn frame_width(self) -> nat {
        frame_width(self.channels)
    }

    /// Whole frames in `interleaved_len` interleaved samples.
    pub open spec fn frames_in(self, interleaved_len: nat) -> nat {
        interleaved_len / self.frame_width()
    }

    /// Number of whole frames in an interleaved block of `interleaved_len`
    /// samples. A zero channel count is treated as one channel.
    pub fn frame_count(self, interleaved_len: usize) -> (frames: usize)
        ensures
            frames == self.frames_in(interleaved_len as nat),
            self.channels >= 1 ==> frames * self.channels <= interleaved_len,
            self.channels >= 1 ==> interleaved_len < (frames + 1) * self.channels,
            self.channels == 0 ==> frames == interleaved_len,
    {
        whole_frames(interleaved_len, self.channels)
    }
}

impl Default for StreamConfig {
    fn default() -> (config: Self)
        ensures
            config == StreamConfig::standard(),
    {
        StreamConfig {
            sample_rate: DEFAULT_SAMPLE_RATE,
            channels: DEFAULT_CHANNELS,
            buffer_frames: DEFAULT_BUFFER_FRAMES,
        }
    }
}

} // verus!
