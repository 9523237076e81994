use quietwatch::{AudioFormat, ChannelLayout};

#[test]
fn known_layouts_have_fixed_counts() {
    assert_eq!(ChannelLayout::Mono.channel_count(), 1);
    assert_eq!(ChannelLayout::Stereo.channel_count(), 2);
    assert_eq!(ChannelLayout::Surround51.channel_count(), 6);
    assert_eq!(ChannelLayout::Surround71.channel_count(), 8);
}

#[test]
fn unknown_layout_keeps_its_count() {
    assert_eq!(ChannelLayout::Unknown(0).channel_count(), 0);
    assert_eq!(ChannelLayout::Unknown(3).channel_count(), 3);
    assert_eq!(ChannelLayout::Unknown(usize::MAX).channel_count(), usize::MAX);
}

#[test]
fn format_takes_channels_from_layout() {
    let format = AudioFormat::new(48_000, ChannelLayout::Surround51);
    assert_eq!(format.sample_rate, 48_000);
    assert_eq!(format.channels, 6);
    assert_eq!(format.layout, ChannelLayout::Surround51);

    let format = AudioFormat::new(44_100, ChannelLayout::Unknown(5));
    assert_eq!(format.channels, 5);
    assert_eq!(format.layout, ChannelLayout::Unknown(5));
}
