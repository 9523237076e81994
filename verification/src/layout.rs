use vstd::prelude::*;

verus! {

/// How many channels the stream has, and what they mean.
#[derive(Clone, Copy, Debug, PartialEq, Eq, Structural)]
pub enum ChannelLayout {
    /// One channel.
    Mono,
    /// Two channels (left, right).
    Stereo,
    /// Six channels: L, R, C, LFE, Ls, Rs.
    Surround51,
    /// Eight channels: L, R, C, LFE, plus four surrounds.
    Surround71,
    /// Channel count is known but the speaker map is not.
    Unknown(usize),
}

impl ChannelLayout {
    /// The number of channels a layout occupies.
    pub open spec fn count(self) -> nat {
        match self {
            ChannelLayout::Mono => 1,
            ChannelLayout::Stereo => 2,
            ChannelLayout::Surround51 => 6,
            ChannelLayout::Surround71 => 8,
            ChannelLayout::Unknown(count) => count as nat,
        }
    }

    /// Number of channels this layout occupies.
    pub fn channel_count(self) -> (count: usize)
        ensures
            count == self.count(),
    {
        match self {
            ChannelLayout::Mono => 1,
            ChannelLayout::Stereo => 2,
            ChannelLayout::Surround51 => 6,
            ChannelLayout::Surround71 => 8,
            ChannelLayout::Unknown(count) => count,
        }
    }
}

} // verus!
