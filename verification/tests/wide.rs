use rusty_win32::wide::{find_nul, from_utf16_lossy, from_wide, le_bytes_to_units, to_wide};

#[test]
fn strings_encode_as_nul_terminated_utf16() {
    assert_eq!(to_wide(""), vec![0]);
    assert_eq!(to_wide("A\u{e9}"), vec![0x41, 0xE9, 0]);
    assert_eq!(to_wide("\u{1F600}"), vec![0xD83D, 0xDE00, 0]);
}

#[test]
fn decoding_replaces_unpaired_surrogates() {
    assert_eq!(from_utf16_lossy(&[0xD83D, 0xDE00]), "\u{1F600}");
    assert_eq!(from_utf16_lossy(&[0xD83D, 0x41]), "\u{FFFD}A");
    assert_eq!(from_utf16_lossy(&[0xDE00]), "\u{FFFD}");
    assert_eq!(from_utf16_lossy(&[0x41, 0xD800]), "A\u{FFFD}");
}

#[test]
fn wide_buffers_are_read_up_to_their_nul() {
    assert_eq!(from_wide(&[0x68, 0x69, 0, 0x41]), "hi");
    assert_eq!(from_wide(&[0x68, 0x69]), "hi");
    assert_eq!(find_nul(&[1, 2, 0, 0]), 2);
    assert_eq!(find_nul(&[1, 2]), 2);
}

#[test]
fn a_string_survives_encoding_and_decoding() {
    for s in ["", "plain", "C:\\Program Files (x86)", "\u{1F600}\u{e9}\u{4e2d}"] {
        assert_eq!(from_wide(&to_wide(s)), s);
    }
}

#[test]
fn bytes_read_as_little_endian_units() {
    assert_eq!(le_bytes_to_units(&[0x41, 0, 0x34, 0x12, 0xFF]), vec![0x41, 0x1234]);
}
