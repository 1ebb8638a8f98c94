use warb::{ImageLayout, ResourceFormat};

#[test]
fn layout_from_known_format() {
    let l = ImageLayout::from_sdk(6048, 4032, u32::from_be_bytes(*b"rgba"), 97_550_336).unwrap();
    assert_eq!(l.width, 6048);
    assert_eq!(l.height, 4032);
    assert_eq!(l.format, ResourceFormat::RgbaU8);
    assert_eq!(l.size_bytes, 97_550_336);
    assert_eq!(l.pixel_len(), 6048 * 4032 * 4);
}

#[test]
fn layout_from_unknown_format_is_none() {
    assert_eq!(ImageLayout::from_sdk(10, 10, 0xDEAD_BEEF, 2048), None);
    assert_eq!(ImageLayout::from_sdk(10, 10, 0, 2048), None);
}

#[test]
fn pixel_data_drops_tail_padding() {
    let l = ImageLayout { width: 3, height: 2, format: ResourceFormat::RgbU16, size_bytes: 2048 };
    assert_eq!(l.pixel_len(), 36);
    let full: Vec<u8> = (0..2048u32).map(|i| (i % 251) as u8).collect();
    let data = l.pixel_data(&full);
    assert_eq!(data.len(), 36);
    assert_eq!(data, &full[..36]);
    assert_eq!(l.data_len(full.len()), 36);
}

#[test]
fn pixel_data_is_cut_to_a_short_buffer() {
    let l = ImageLayout { width: 4, height: 4, format: ResourceFormat::RgbaF32, size_bytes: 16 };
    assert_eq!(l.pixel_len(), 256);
    let full = vec![7u8; 16];
    assert_eq!(l.pixel_data(&full), &full[..]);
    assert_eq!(l.data_len(16), 16);
}

#[test]
fn pixel_len_saturates() {
    let l = ImageLayout {
        width: u32::MAX,
        height: u32::MAX,
        format: ResourceFormat::RgbaF32,
        size_bytes: 0,
    };
    let exact = (u32::MAX as u128) * (u32::MAX as u128) * 16;
    let expected = if exact > usize::MAX as u128 { usize::MAX } else { exact as usize };
    assert_eq!(l.pixel_len(), expected);
}

#[test]
fn empty_image_has_no_pixel_data() {
    let l = ImageLayout { width: 0, height: 1080, format: ResourceFormat::BgraU8, size_bytes: 2048 };
    assert_eq!(l.pixel_len(), 0);
    assert_eq!(l.pixel_data(&[1, 2, 3]), &[] as &[u8]);
}
