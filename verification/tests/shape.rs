use pulse_simple::{format_of, ChannelCount, Endianness, Error, FormatTag, Sampleable};

#[test]
fn sample_size_is_count_times_width() {
    let kinds = [Sampleable::U8, Sampleable::I16, Sampleable::I32, Sampleable::F32];
    for kind in kinds {
        for channels in 1..=255u8 {
            let shape = ChannelCount::new(kind, channels).unwrap();
            assert_eq!(shape.count(), channels);
            assert_eq!(shape.kind(), kind);
            assert_eq!(shape.sample_size(), channels as usize * kind.width());
        }
    }
}

#[test]
fn sample_size_exact_values() {
    assert_eq!(ChannelCount::new(Sampleable::U8, 1).unwrap().sample_size(), 1);
    assert_eq!(ChannelCount::new(Sampleable::I16, 2).unwrap().sample_size(), 4);
    assert_eq!(ChannelCount::new(Sampleable::F32, 2).unwrap().sample_size(), 8);
    assert_eq!(ChannelCount::new(Sampleable::I32, 9).unwrap().sample_size(), 36);
    assert_eq!(ChannelCount::new(Sampleable::F32, 255).unwrap().sample_size(), 1020);
}

#[test]
fn sample_size_matches_array_frames() {
    assert_eq!(
        ChannelCount::new(Sampleable::I16, 2).unwrap().sample_size(),
        std::mem::size_of::<[i16; 2]>()
    );
    assert_eq!(
        ChannelCount::new(Sampleable::F32, 6).unwrap().sample_size(),
        std::mem::size_of::<[f32; 6]>()
    );
    assert_eq!(
        ChannelCount::new(Sampleable::U8, 9).unwrap().sample_size(),
        std::mem::size_of::<[u8; 9]>()
    );
}

#[test]
fn a_frame_needs_a_channel() {
    assert_eq!(ChannelCount::new(Sampleable::I16, 0).err(), Some(Error::Configuration));
    assert_eq!(
        ChannelCount::with_order(Sampleable::U8, 0, Endianness::Big).err(),
        Some(Error::Configuration)
    );
}

#[test]
fn shape_carries_the_tag_of_its_order() {
    let little = ChannelCount::with_order(Sampleable::I16, 2, Endianness::Little).unwrap();
    assert_eq!(little.format(), FormatTag::S16Le);
    let big = ChannelCount::with_order(Sampleable::I16, 2, Endianness::Big).unwrap();
    assert_eq!(big.format(), FormatTag::S16Be);
    let float = ChannelCount::with_order(Sampleable::F32, 1, Endianness::Big).unwrap();
    assert_eq!(float.format(), FormatTag::Float32Be);
    let byte = ChannelCount::with_order(Sampleable::U8, 1, Endianness::Big).unwrap();
    assert_eq!(byte.format(), FormatTag::U8);
}

#[test]
fn shape_made_here_is_tagged_for_the_host() {
    let shape = ChannelCount::new(Sampleable::I32, 3).unwrap();
    assert_eq!(shape.format(), format_of(Sampleable::I32, Endianness::host()));
    assert_eq!(shape.format(), Sampleable::I32.format());
}

#[test]
fn shape_of_a_frame_type() {
    let stereo = ChannelCount::of_frame::<[i16; 2]>(Sampleable::I16, 2).unwrap();
    assert_eq!(stereo.sample_size(), 4);
    assert_eq!(stereo.count(), 2);
    assert_eq!(stereo.kind(), Sampleable::I16);
    assert_eq!(stereo.format(), Sampleable::I16.format());
    let surround = ChannelCount::of_frame::<[f32; 6]>(Sampleable::F32, 6).unwrap();
    assert_eq!(surround.sample_size(), 24);
    let mono = ChannelCount::of_frame::<[u8; 1]>(Sampleable::U8, 1).unwrap();
    assert_eq!(mono.sample_size(), 1);
    let nine = ChannelCount::of_frame::<[i32; 9]>(Sampleable::I32, 9).unwrap();
    assert_eq!(nine.sample_size(), 36);
}

#[test]
fn frame_type_of_another_size_is_refused() {
    assert_eq!(
        ChannelCount::of_frame::<[i16; 2]>(Sampleable::I16, 3).err(),
        Some(Error::Configuration)
    );
    assert_eq!(
        ChannelCount::of_frame::<[i16; 2]>(Sampleable::I32, 2).err(),
        Some(Error::Configuration)
    );
    assert_eq!(
        ChannelCount::of_frame::<[u8; 4]>(Sampleable::U8, 0).err(),
        Some(Error::Configuration)
    );
    assert_eq!(
        ChannelCount::of_frame::<[u8; 0]>(Sampleable::U8, 0).err(),
        Some(Error::Configuration)
    );
    assert_eq!(ChannelCount::of_frame::<u64>(Sampleable::U8, 1).err(), Some(Error::Configuration));
}
