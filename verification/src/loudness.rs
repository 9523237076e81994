use vstd::prelude::*;

verus! {

/// Short-window loudness meter for an interleaved stream. It always meters
/// at least one channel.
#[derive(Clone, Copy, Debug)]
pub struct LoudnessMeter {
    channels: u16,
}

impl LoudnessMeter {
    #[verifier::type_invariant]
    spec fn at_least_one_channel(self) -> bool {
        self.channels >= 1
    }

    /// Channel count the meter works with.
    pub closed spec fn metered_channels(self) -> u16 {
        self.channels
    }

    /// A meter for `channels` channels; zero is raised to one.
    pub fn new(channels: u16) -> (meter: Self)
        ensures
            meter.metered_channels() == if channels == 0 {
                1
            } else {
                channels
            },
    {
        let channels: u16 = if channels == 0 {
            1
        } else {
            channels
        };
        LoudnessMeter { channels }
    }

    pub fn channels(&self) -> (channels: u16)
        ensures
            channels == self.metered_channels(),
            channels >= 1,
    {
        proof {
            use_type_invariant(self);
        }
        self.channels
    }
}

} // verus!
