use bozochat::icon::{
    checked_widest_icon, entry_is_decodable, image_is_decodable, widest_entry, widest_icon,
    widest_is_decodable,
};

fn ico_file(sizes: &[u32]) -> Vec<u8> {
    let mut dir = ico::IconDir::new(ico::ResourceType::Icon);
    for &size in sizes {
        let rgba = vec![200u8; (size * size * 4) as usize];
        let image = ico::IconImage::from_rgba_data(size, size, rgba);
        dir.add_entry(ico::IconDirEntry::encode(&image).unwrap());
    }
    let mut bytes = Vec::new();
    dir.write(&mut bytes).unwrap();
    bytes
}

#[test]
fn widest_entry_prefers_the_last_of_equals() {
    assert_eq!(widest_entry(&vec![]), None);
    assert_eq!(widest_entry(&vec![16]), Some(0));
    assert_eq!(widest_entry(&vec![16, 48, 32]), Some(1));
    assert_eq!(widest_entry(&vec![48, 16, 48, 32]), Some(2));
}

#[test]
fn widest_entry_agrees_with_max_by_key() {
    let ws = vec![5u32, 9, 9, 1, 9, 3];
    let expected = ws.iter().enumerate().max_by_key(|(_, w)| **w).map(|(i, _)| i);
    assert_eq!(widest_entry(&ws), expected);
}

#[test]
fn widest_icon_decodes_the_largest_image() {
    let bytes = ico_file(&[16, 48, 32]);
    let icon = widest_icon(&bytes).expect("icon decodes");
    assert_eq!(icon.width, 48);
    assert_eq!(icon.height, 48);
    assert_eq!(icon.rgba.len(), 48 * 48 * 4);
}

#[test]
fn widest_icon_refuses_garbage() {
    assert!(widest_icon(b"not an icon").is_none());
    assert!(widest_icon(&[]).is_none());
}

#[test]
fn widest_icon_of_an_empty_directory() {
    assert!(widest_icon(&ico_file(&[])).is_none());
}

/// An ICO file holding one 1x1 8-bit BMP that declares `colors_used` colours,
/// with a table of `table_len` entries and the pixel value `pixel`.
fn bmp_ico(colors_used: u32, table_len: usize, pixel: u8) -> Vec<u8> {
    let mut bmp = Vec::new();
    bmp.extend_from_slice(&40u32.to_le_bytes());
    bmp.extend_from_slice(&1i32.to_le_bytes());
    bmp.extend_from_slice(&2i32.to_le_bytes());
    bmp.extend_from_slice(&1u16.to_le_bytes());
    bmp.extend_from_slice(&8u16.to_le_bytes());
    bmp.extend_from_slice(&[0u8; 16]);
    bmp.extend_from_slice(&colors_used.to_le_bytes());
    bmp.extend_from_slice(&0u32.to_le_bytes());
    for i in 0..table_len {
        bmp.extend_from_slice(&[i as u8, i as u8, i as u8, 0]);
    }
    bmp.extend_from_slice(&[pixel, 0, 0, 0]);
    bmp.extend_from_slice(&[0, 0, 0, 0]);
    let mut file = vec![0, 0, 1, 0, 1, 0, 1, 1, 0, 0, 1, 0, 8, 0];
    file.extend_from_slice(&(bmp.len() as u32).to_le_bytes());
    file.extend_from_slice(&22u32.to_le_bytes());
    file.extend_from_slice(&bmp);
    file
}

#[test]
fn partial_colour_table_is_not_decoded() {
    let bytes = bmp_ico(2, 2, 200);
    assert!(!entry_is_decodable(&bytes, 0));
    assert!(!widest_is_decodable(&bytes));
    assert!(checked_widest_icon(&bytes).is_none());
}

#[test]
fn partial_colour_table_with_pixels_inside_is_decoded() {
    let bytes = bmp_ico(2, 2, 1);
    assert!(entry_is_decodable(&bytes, 0));
    assert!(widest_is_decodable(&bytes));
    let icon = checked_widest_icon(&bytes).expect("icon decodes");
    assert_eq!((icon.width, icon.height), (1, 1));
    assert_eq!(&icon.rgba[0..3], &[1, 1, 1]);
}

#[test]
fn pixels_beyond_the_data_are_never_looked_up() {
    let bytes = bmp_ico(2, 2, 200);
    let bmp = &bytes[22..];
    assert!(!image_is_decodable(bmp));
    // Cut just before the pixel: the decoder fails on the missing byte.
    assert!(image_is_decodable(&bmp[..48]));
    assert!(!image_is_decodable(&bmp[..49]));
}

#[test]
fn full_colour_table_is_decoded() {
    let bytes = bmp_ico(0, 256, 200);
    assert!(entry_is_decodable(&bytes, 0));
    assert!(widest_is_decodable(&bytes));
    let icon = checked_widest_icon(&bytes).expect("icon decodes");
    assert_eq!((icon.width, icon.height), (1, 1));
    assert_eq!(&icon.rgba[0..3], &[200, 200, 200]);
}

#[test]
fn entries_beyond_the_file_are_harmless() {
    assert!(entry_is_decodable(&[], 0));
    assert!(entry_is_decodable(&bmp_ico(2, 2, 200), 1));
    assert!(entry_is_decodable(&ico_file(&[16]), 0));
}
