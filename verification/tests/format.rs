use pulse_simple::{format_of, Endianness, FormatTag, Sampleable};

fn host_order() -> Endianness {
    if u16::from_ne_bytes([1, 0]) == 1 {
        Endianness::Little
    } else {
        Endianness::Big
    }
}

#[test]
fn eight_bit_has_one_tag() {
    assert_eq!(format_of(Sampleable::U8, Endianness::Little), FormatTag::U8);
    assert_eq!(format_of(Sampleable::U8, Endianness::Big), FormatTag::U8);
}

#[test]
fn sixteen_bit_follows_byte_order() {
    assert_eq!(format_of(Sampleable::I16, Endianness::Little), FormatTag::S16Le);
    assert_eq!(format_of(Sampleable::I16, Endianness::Big), FormatTag::S16Be);
}

#[test]
fn thirty_two_bit_integer_follows_byte_order() {
    assert_eq!(format_of(Sampleable::I32, Endianness::Little), FormatTag::S32Le);
    assert_eq!(format_of(Sampleable::I32, Endianness::Big), FormatTag::S32Be);
}

#[test]
fn float_follows_byte_order() {
    assert_eq!(format_of(Sampleable::F32, Endianness::Little), FormatTag::Float32Le);
    assert_eq!(format_of(Sampleable::F32, Endianness::Big), FormatTag::Float32Be);
}

#[test]
fn every_kind_and_order_has_its_own_tag() {
    let kinds = [Sampleable::I16, Sampleable::I32, Sampleable::F32];
    let orders = [Endianness::Little, Endianness::Big];
    let mut seen: Vec<FormatTag> = vec![format_of(Sampleable::U8, Endianness::Little)];
    for kind in kinds {
        for order in orders {
            let tag = format_of(kind, order);
            assert!(!seen.contains(&tag));
            seen.push(tag);
        }
    }
    assert_eq!(seen.len(), 7);
}

#[test]
fn host_order_is_the_machines() {
    assert_eq!(Endianness::host(), host_order());
}

#[test]
fn format_uses_the_host_order() {
    for kind in [Sampleable::U8, Sampleable::I16, Sampleable::I32, Sampleable::F32] {
        assert_eq!(kind.format(), format_of(kind, host_order()));
    }
}

#[test]
fn element_widths() {
    assert_eq!(Sampleable::U8.width(), 1);
    assert_eq!(Sampleable::I16.width(), 2);
    assert_eq!(Sampleable::I32.width(), 4);
    assert_eq!(Sampleable::F32.width(), 4);
    assert_eq!(Sampleable::U8.width(), std::mem::size_of::<u8>());
    assert_eq!(Sampleable::I16.width(), std::mem::size_of::<i16>());
    assert_eq!(Sampleable::I32.width(), std::mem::size_of::<i32>());
    assert_eq!(Sampleable::F32.width(), std::mem::size_of::<f32>());
}

#[test]
fn byte_order_read_off_the_image_of_one() {
    assert_eq!(Endianness::of_image([1, 0]), Endianness::Little);
    assert_eq!(Endianness::of_image([0, 1]), Endianness::Big);
    assert_eq!(Endianness::of_image(1u16.to_le_bytes()), Endianness::Little);
    assert_eq!(Endianness::of_image(1u16.to_be_bytes()), Endianness::Big);
    assert_eq!(Endianness::of_image(1u16.to_ne_bytes()), Endianness::host());
}
