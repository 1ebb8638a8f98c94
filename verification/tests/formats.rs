use warb::{Pipeline, ResolutionScale, ResourceFormat};

const ALL_FORMATS: &[ResourceFormat] = &[
    ResourceFormat::RgbaU8,
    ResourceFormat::BgraU8,
    ResourceFormat::RgbU16,
    ResourceFormat::RgbaU16,
    ResourceFormat::BgraU16,
    ResourceFormat::RgbU16Planar,
    ResourceFormat::RgbF32,
    ResourceFormat::RgbaF32,
    ResourceFormat::BgraF32,
    ResourceFormat::RgbF32Planar,
    ResourceFormat::RgbF16,
    ResourceFormat::RgbaF16,
    ResourceFormat::BgraF16,
    ResourceFormat::RgbF16Planar,
];

#[test]
fn resource_format_round_trip() {
    for &fmt in ALL_FORMATS {
        assert_eq!(ResourceFormat::from_raw(fmt.fourcc()), Some(fmt));
    }
}

#[test]
fn resource_format_unknown_is_none() {
    assert_eq!(ResourceFormat::from_raw(0), None);
    assert_eq!(ResourceFormat::from_raw(0xDEAD_BEEF), None);
}

#[test]
fn bytes_per_pixel_covers_all_variants() {
    for &fmt in ALL_FORMATS {
        let bpp = fmt.bytes_per_pixel();
        assert!(matches!(bpp, 4 | 6 | 8 | 12 | 16), "{fmt:?} -> {bpp}");
    }
}

#[test]
fn bytes_per_pixel_known_values() {
    assert_eq!(ResourceFormat::RgbaU8.bytes_per_pixel(), 4);
    assert_eq!(ResourceFormat::RgbU16.bytes_per_pixel(), 6);
    assert_eq!(ResourceFormat::RgbaU16.bytes_per_pixel(), 8);
    assert_eq!(ResourceFormat::RgbF32.bytes_per_pixel(), 12);
    assert_eq!(ResourceFormat::RgbaF32.bytes_per_pixel(), 16);
}

#[test]
fn resolution_scale_divisor() {
    assert_eq!(ResolutionScale::Full.divisor(), 1);
    assert_eq!(ResolutionScale::Half.divisor(), 2);
    assert_eq!(ResolutionScale::Quarter.divisor(), 4);
    assert_eq!(ResolutionScale::Eighth.divisor(), 8);
}

#[test]
fn pipeline_fourcc_values() {
    assert_eq!(Pipeline::Cpu.fourcc(), u32::from_be_bytes(*b"cpub"));
    assert_eq!(Pipeline::Cuda.fourcc(), u32::from_be_bytes(*b"cuda"));
    assert_eq!(Pipeline::Metal.fourcc(), u32::from_be_bytes(*b"metl"));
    assert_eq!(Pipeline::OpenCL.fourcc(), u32::from_be_bytes(*b"opcl"));
}

#[test]
fn resolution_scale_fourcc_values() {
    assert_eq!(ResolutionScale::Full.fourcc(), u32::from_be_bytes(*b"full"));
    assert_eq!(ResolutionScale::Half.fourcc(), u32::from_be_bytes(*b"half"));
    assert_eq!(ResolutionScale::Quarter.fourcc(), u32::from_be_bytes(*b"qrtr"));
    assert_eq!(ResolutionScale::Eighth.fourcc(), u32::from_be_bytes(*b"eith"));
}

#[test]
fn resource_format_fourcc_values() {
    let tags: [&[u8; 4]; 14] = [
        b"rgba", b"bgra", b"16il", b"16al", b"16la", b"16pl", b"f32s", b"f32l", b"f32a",
        b"f32p", b"f16s", b"f16l", b"f16a", b"f16p",
    ];
    for (fmt, tag) in ALL_FORMATS.iter().zip(tags.iter()) {
        assert_eq!(fmt.fourcc(), u32::from_be_bytes(**tag), "{fmt:?}");
    }
}

#[test]
fn resource_format_tags_are_distinct() {
    for (i, a) in ALL_FORMATS.iter().enumerate() {
        for (j, b) in ALL_FORMATS.iter().enumerate() {
            assert_eq!(a.fourcc() == b.fourcc(), i == j);
        }
    }
}

#[test]
fn resource_format_rejects_near_misses() {
    assert_eq!(ResourceFormat::from_raw(u32::from_be_bytes(*b"rgbb")), None);
    assert_eq!(ResourceFormat::from_raw(u32::from_be_bytes(*b"cpub")), None);
    assert_eq!(ResourceFormat::from_raw(u32::MAX), None);
}
