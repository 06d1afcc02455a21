use titan_factory::wasm_sections::{declares_start_section, read_leb128};

#[test]
fn leb128_decoding() {
    assert_eq!(read_leb128(&[0x05], 0), Some((5, 1)));
    assert_eq!(read_leb128(&[0xff, 0xe5, 0x8e, 0x26], 1), Some((624485, 4)));
    assert_eq!(read_leb128(&[0x80, 0x01], 0), Some((128, 2)));
    assert_eq!(read_leb128(&[0x80], 0), None);
    assert_eq!(read_leb128(&[0x80, 0x80, 0x80, 0x80, 0x80, 0x00], 0), None);
    assert_eq!(read_leb128(&[0xff, 0xff, 0xff, 0xff, 0x0f], 0), Some((u32::MAX as u64, 5)));
}

#[test]
fn start_section_detection() {
    let header = vec![0x00u8, 0x61, 0x73, 0x6d, 0x01, 0x00, 0x00, 0x00];
    assert!(!declares_start_section(&header));
    let mut with_start = header.clone();
    with_start.extend_from_slice(&[0x01, 0x04, 0x01, 0x60, 0x00, 0x00, 0x08, 0x01, 0x00]);
    assert!(declares_start_section(&with_start));
    // A custom section whose content holds the byte 8 is skipped whole.
    let mut custom = header.clone();
    custom.extend_from_slice(&[0x00, 0x03, 0x01, b'x', 0x08]);
    assert!(!declares_start_section(&custom));
}
