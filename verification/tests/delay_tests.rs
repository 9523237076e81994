use quietwatch::{DelayLines, FIR_TAPS, OVERSAMPLE, TAPS_PER_PHASE};

#[test]
fn taps_per_phase_is_filter_length_over_oversampling() {
    assert_eq!(TAPS_PER_PHASE, 12);
    assert_eq!(TAPS_PER_PHASE * OVERSAMPLE, FIR_TAPS);
}

#[test]
fn new_lines_are_silent_and_have_a_channel() {
    let lines = DelayLines::new(0, 0i32);
    assert_eq!(lines.channels(), 1);
    for tap in 0..TAPS_PER_PHASE {
        assert_eq!(lines.tap(0, tap), 0);
    }
    let lines = DelayLines::new(3, 7u8);
    assert_eq!(lines.channels(), 3);
    assert_eq!(lines.tap(2, TAPS_PER_PHASE - 1), 7);
}

#[test]
fn push_puts_newest_first_and_shifts_older() {
    let mut lines = DelayLines::new(2, 0i32);
    for value in 1..=5 {
        lines.push(1, value);
    }
    assert_eq!(lines.tap(1, 0), 5);
    assert_eq!(lines.tap(1, 1), 4);
    assert_eq!(lines.tap(1, 4), 1);
    assert_eq!(lines.tap(1, 5), 0);
    for tap in 0..TAPS_PER_PHASE {
        assert_eq!(lines.tap(0, tap), 0);
    }
}

#[test]
fn oldest_sample_drops_out() {
    let mut lines = DelayLines::new(1, 0i32);
    for value in 1..=(TAPS_PER_PHASE as i32 + 3) {
        lines.push(0, value);
    }
    assert_eq!(lines.tap(0, 0), TAPS_PER_PHASE as i32 + 3);
    assert_eq!(lines.tap(0, TAPS_PER_PHASE - 1), 4);
}

#[test]
fn same_channel_count_keeps_history() {
    let mut lines = DelayLines::new(2, 0i32);
    lines.push(0, 9);
    lines.ensure_channels(2, 0);
    assert_eq!(lines.channels(), 2);
    assert_eq!(lines.tap(0, 0), 9);
}

#[test]
fn changed_channel_count_resets_history() {
    let mut lines = DelayLines::new(2, 0i32);
    lines.push(0, 9);
    lines.ensure_channels(3, -1);
    assert_eq!(lines.channels(), 3);
    for channel in 0..3 {
        for tap in 0..TAPS_PER_PHASE {
            assert_eq!(lines.tap(channel, tap), -1);
        }
    }
    lines.ensure_channels(0, 0);
    assert_eq!(lines.channels(), 1);
    assert_eq!(lines.tap(0, 0), 0);
}
