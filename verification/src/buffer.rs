use vstd::prelude::*;

verus! {

/// Samples per frame as the frame arithmetic sees them: a stream that claims
/// no channels is counted as mono.
pub open spec fn frame_width(channels: u16) -> nat {
    if channels == 0 {
        1
    } else {
        channels as nat
    }
}

/// Number of whole frames in `interleaved_len` interleaved samples of
/// `channels` channels; a channel count of zero counts as one.
pub fn whole_frames(interleaved_len: usize, channels: u16) -> (frames: usize)
    ensures
        frames == interleaved_len as nat / frame_width(channels),
        channels >= 1 ==> frames * channels <= interleaved_len,
        channels >= 1 ==> interleaved_len < (frames + 1) * channels,
        channels == 0 ==> frames == interleaved_len,
{
    let width: usize = if channels == 0 {
        1
    } else {
        channels as usize
    };
    let frames = interleaved_len / width;
    proof {
        lemma_quotient_bounds(interleaved_len as nat, width as nat);
    }
    frames
}

/// The quotient of `n` by a positive `d` is the number of whole `d`s in `n`.
pub proof fn lemma_quotient_bounds(n: nat, d: nat)
    requires
        d >= 1,
    ensures
        (n / d) * d <= n,
        n < (n / d + 1) * d,
{
    vstd::arithmetic::div_mod::lemma_fundamental_div_mod(n as int, d as int);
    let q = n as int / d as int;
    assert(q * d == d * q) by (nonlinear_arith);
    assert((q + 1) * d == q * d + d) by (nonlinear_arith);
}

/// How an interleaved block of `len` samples splits into frames of
/// `channels` samples: `None` when there are no channels or the last frame
/// would be partial, otherwise the number of frames.
pub open spec fn interleaved_layout(len: nat, channels: nat) -> Option<nat> {
    if channels == 0 || len % channels != 0 {
        None
    } else {
        Some(len / channels)
    }
}

/// Frame count of an interleaved block of `len` samples with `channels`
/// channels, if the block is made of whole frames.
pub fn interleaved_frames(len: usize, channels: usize) -> (frames: Option<usize>)
    ensures
        match frames {
            Some(n) => interleaved_layout(len as nat, channels as nat) == Some(n as nat),
            None => interleaved_layout(len as nat, channels as nat) is None,
        },
{
    if channels == 0 || len % channels != 0 {
        return None;
    }
    Some(len / channels)
}

} // verus!
