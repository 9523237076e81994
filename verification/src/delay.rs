use vstd::prelude::*;

verus! {

/// Interpolation factor of the true-peak reconstruction filter.
pub const OVERSAMPLE: usize = 4;

/// Length of the reconstruction filter at the oversampled rate.
pub const FIR_TAPS: usize = 48;

/// Input samples each filter phase sees, per channel.
pub const TAPS_PER_PHASE: usize = FIR_TAPS / OVERSAMPLE;

/// The channel count a delay line uses when asked for `requested`: at least one.
pub open spec fn effective_channels(requested: usize) -> nat {
    if requested == 0 {
        1
    } else {
        requested as nat
    }
}

/// Whether a delay line for `requested` channels fits in memory addressing.
pub open spec fn fits(requested: usize) -> bool {
    effective_channels(requested) * TAPS_PER_PHASE <= usize::MAX
}

/// Per-channel history of the last `TAPS_PER_PHASE` input samples, newest
/// first, kept across blocks so that a filter sees samples from the previous
/// block at its start.
///
/// Storage is one flat vector: the history of channel `c` sits at
/// `c * TAPS_PER_PHASE .. (c + 1) * TAPS_PER_PHASE`.
#[derive(Clone, Debug)]
pub struct DelayLines<T> {
    history: Vec<T>,
    channels: usize,
}

impl<T: Copy> DelayLines<T> {
    /// Storage matches the channel count and there is at least one channel.
    pub closed spec fn wf(&self) -> bool {
        &&& self.channels >= 1
        &&& self.channels * TAPS_PER_PHASE <= usize::MAX
        &&& self.history@.len() == self.channels * TAPS_PER_PHASE
    }

    /// Storage is consistent and every channel's history holds exactly
    /// `TAPS_PER_PHASE` samples.
    pub open spec fn well_shaped(&self) -> bool {
        &&& self.wf()
        &&& forall|c: int|
            0 <= c < self.channel_count() ==> #[trigger] self.window(c).len() == TAPS_PER_PHASE
    }

    proof fn lemma_shaped(&self)
        requires
            self.wf(),
        ensures
            self.well_shaped(),
    {
        assert forall|c: int| 0 <= c < self.channel_count() implies #[trigger] self.window(c).len()
            == TAPS_PER_PHASE by {
            self.lemma_slot_in_range(c, 0);
        }
    }

    /// Number of channels whose history is kept.
    pub closed spec fn channel_count(&self) -> nat {
        self.channels as nat
    }

    /// History of `channel`, newest sample first.
    pub closed spec fn window(&self, channel: int) -> Seq<T> {
        self.history@.subrange(channel * TAPS_PER_PHASE, channel * TAPS_PER_PHASE + TAPS_PER_PHASE)
    }

    /// Every channel's history is `silence` throughout.
    pub open spec fn all_silent(&self, silence: T) -> bool {
        forall|c: int, k: int|
            0 <= c < self.channel_count() && 0 <= k < TAPS_PER_PHASE ==> #[trigger] self.window(c)[k]
                == silence
    }

    fn filled(channels: usize, silence: T) -> (lines: Self)
        requires
            channels >= 1,
            channels * TAPS_PER_PHASE <= usize::MAX,
        ensures
            lines.well_shaped(),
            lines.channel_count() == channels,
            lines.all_silent(silence),
    {
        let total: usize = channels * TAPS_PER_PHASE;
        let mut history: Vec<T> = Vec::new();
        let mut i: usize = 0;
        while i < total
            invariant
                i <= total,
                history@.len() == i,
                forall|j: int| 0 <= j < i ==> history@[j] == silence,
            decreases total - i,
        {
            history.push(silence);
            i = i + 1;
        }
        let lines = DelayLines { history, channels };
        assert forall|c: int, k: int|
            0 <= c < lines.channel_count() && 0 <= k < TAPS_PER_PHASE implies #[trigger] lines.window(c)[k]
            == silence by {
            assert(c * TAPS_PER_PHASE + k < total) by (nonlinear_arith)
                requires
                    0 <= c < channels,
                    0 <= k < TAPS_PER_PHASE,
                    total == channels * TAPS_PER_PHASE,
            ;
            assert(c * TAPS_PER_PHASE + TAPS_PER_PHASE <= total) by (nonlinear_arith)
                requires
                    0 <= c < channels,
                    total == channels * TAPS_PER_PHASE,
            ;
            assert(c * TAPS_PER_PHASE >= 0) by (nonlinear_arith)
                requires
                    0 <= c,
            ;
            assert(lines.window(c)[k] == lines.history@[c * TAPS_PER_PHASE + k]);
        }
        proof {
            lines.lemma_shaped();
        }
        lines
    }

    /// A silent history for `channels` channels (zero counts as one).
    pub fn new(channels: usize, silence: T) -> (lines: Self)
        requires
            fits(channels),
        ensures
            lines.well_shaped(),
            lines.channel_count() == effective_channels(channels),
            channels >= 1 ==> lines.channel_count() == channels,
            channels == 0 ==> lines.channel_count() == 1,
            lines.all_silent(silence),
    {
        let channels: usize = if channels == 0 {
            1
        } else {
            channels
        };
        Self::filled(channels, silence)
    }

    /// Channels whose history is kept.
    pub fn channels(&self) -> (channels: usize)
        requires
            self.well_shaped(),
        ensures
            channels == self.channel_count(),
            channels >= 1,
    {
        self.channels
    }

    /// Makes room for `channels` channels (zero counts as one). The history is
    /// kept when the count is unchanged and reset to `silence` otherwise.
    pub fn ensure_channels(&mut self, channels: usize, silence: T)
        requires
            old(self).well_shaped(),
            fits(channels),
        ensures
            final(self).well_shaped(),
            final(self).channel_count() == effective_channels(channels),
            channels >= 1 ==> final(self).channel_count() == channels,
            channels == 0 ==> final(self).channel_count() == 1,
            old(self).channel_count() == effective_channels(channels) ==> *final(self) == *old(self),
            old(self).channel_count() != effective_channels(channels) ==> final(self).all_silent(
                silence,
            ),
    {
        let channels: usize = if channels == 0 {
            1
        } else {
            channels
        };
        if self.channels == channels && self.history.len() == channels * TAPS_PER_PHASE {
            return;
        }
        *self = Self::filled(channels, silence);
    }

    /// Sample `tap` steps back in the history of `channel` (0 is the newest).
    pub fn tap(&self, channel: usize, tap: usize) -> (sample: T)
        requires
            self.well_shaped(),
            channel < self.channel_count(),
            tap < TAPS_PER_PHASE,
        ensures
            sample == self.window(channel as int)[tap as int],
    {
        proof {
            self.lemma_slot_in_range(channel as int, tap as int);
        }
        self.history[channel * TAPS_PER_PHASE + tap]
    }

    proof fn lemma_slot_in_range(&self, channel: int, tap: int)
        requires
            self.wf(),
            0 <= channel < self.channel_count(),
            0 <= tap < TAPS_PER_PHASE,
        ensures
            0 <= channel * TAPS_PER_PHASE,
            channel * TAPS_PER_PHASE + TAPS_PER_PHASE <= self.history@.len(),
            0 <= channel * TAPS_PER_PHASE + tap < self.history@.len(),
    {
        let n = self.channels as int;
        assert(channel * TAPS_PER_PHASE + TAPS_PER_PHASE <= n * TAPS_PER_PHASE) by (nonlinear_arith)
            requires
                0 <= channel < n,
        ;
        assert(0 <= channel * TAPS_PER_PHASE) by (nonlinear_arith)
            requires
                0 <= channel,
        ;
    }

    /// Records `sample` as the newest input of `channel`; that channel's
    /// oldest sample drops out and the other channels are untouched.
    pub fn push(&mut self, channel: usize, sample: T)
        requires
            old(self).well_shaped(),
            channel < old(self).channel_count(),
        ensures
            final(self).well_shaped(),
            final(self).channel_count() == old(self).channel_count(),
            final(self).window(channel as int) == seq![sample] + old(self).window(
                channel as int,
            ).take(TAPS_PER_PHASE - 1),
            forall|c: int|
                0 <= c < old(self).channel_count() && c != channel ==> #[trigger] final(self).window(c)
                    == old(self).window(c),
    {
        proof {
            self.lemma_slot_in_range(channel as int, 0);
        }
        let offset: usize = channel * TAPS_PER_PHASE;
        let ghost before = self.history@;
        let mut tap: usize = TAPS_PER_PHASE - 1;
        while tap > 0
            invariant
                self.wf(),
                self.channels == old(self).channels,
                offset == channel * TAPS_PER_PHASE,
                offset + TAPS_PER_PHASE <= self.history@.len(),
                before == old(self).history@,
                0 <= tap < TAPS_PER_PHASE,
                forall|j: int|
                    0 <= j < self.history@.len() && (j < offset || j >= offset + TAPS_PER_PHASE)
                        ==> self.history@[j] == before[j],
                forall|j: int| offset <= j <= offset + tap ==> self.history@[j] == before[j],
                forall|j: int|
                    offset + tap < j < offset + TAPS_PER_PHASE ==> self.history@[j] == before[j - 1],
            decreases tap,
        {
            let previous = self.history[offset + tap - 1];
            self.history.set(offset + tap, previous);
            tap = tap - 1;
        }
        self.history.set(offset, sample);
        proof {
            let fresh = self.window(channel as int);
            let expected = seq![sample] + old(self).window(channel as int).take(
                TAPS_PER_PHASE - 1,
            );
            assert(fresh =~= expected);
            assert forall|c: int|
                0 <= c < old(self).channel_count() && c != channel implies #[trigger] self.window(c)
                == old(self).window(c) by {
                self.lemma_slot_in_range(c, 0);
                if c < channel {
                    assert(c * TAPS_PER_PHASE + TAPS_PER_PHASE <= offset) by (nonlinear_arith)
                        requires
                            c < channel,
                            offset == channel * TAPS_PER_PHASE,
                    ;
                } else {
                    assert(c * TAPS_PER_PHASE >= offset + TAPS_PER_PHASE) by (nonlinear_arith)
                        requires
                            c > channel,
                            offset == channel * TAPS_PER_PHASE,
                    ;
                }
                assert(self.window(c) =~= old(self).window(c));
            }
            self.lemma_shaped();
        }
    }
}

} // verus!
