use quietwatch::{interleaved_frames, whole_frames};

#[test]
fn interleaved_accepts_whole_frames_only() {
    assert_eq!(interleaved_frames(8, 2), Some(4));
    assert_eq!(interleaved_frames(6, 6), Some(1));
    assert_eq!(interleaved_frames(0, 2), Some(0));
    assert_eq!(interleaved_frames(7, 2), None);
    assert_eq!(interleaved_frames(8, 0), None);
    assert_eq!(interleaved_frames(0, 0), None);
}

#[test]
fn interleaved_frames_times_channels_is_length() {
    for channels in 1usize..9 {
        for len in 0usize..40 {
            match interleaved_frames(len, channels) {
                Some(frames) => assert_eq!(frames * channels, len),
                None => assert_ne!(len % channels, 0),
            }
        }
    }
}

#[test]
fn whole_frames_rounds_down_and_counts_zero_channels_as_one() {
    assert_eq!(whole_frames(9, 2), 4);
    assert_eq!(whole_frames(9, 0), 9);
    assert_eq!(whole_frames(9, 1), 9);
    assert_eq!(whole_frames(0, 8), 0);
}
