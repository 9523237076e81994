use vstd::prelude::*;

use crate::layout::ChannelLayout;

verus! {

/// Sample rate and channel arrangement of a stream.
#[derive(Clone, Copy, Debug, PartialEq, Eq, Structural)]
pub struct AudioFormat {
    pub sample_rate: u32,
    pub channels: usize,
    pub layout: ChannelLayout,
}

impl AudioFormat {
    /// A format whose channel count is the one `layout` occupies.
    pub fn new(sample_rate: u32, layout: ChannelLayout) -> (format: Self)
        ensures
            format.sample_rate == sample_rate,
            format.layout == layout,
            format.channels == layout.count(),
    {
        AudioFormat { sample_rate, channels: layout.channel_count(), layout }
    }
}

} // verus!
