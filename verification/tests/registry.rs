use rusty_win32::error::Win32Error;
use rusty_win32::registry::{
    decode_multi_sz, decode_registry_value, decode_u32_le, decode_u64_le, decode_wide_string,
    key_disposition, status_result, KeyDisposition, RegistryValue, HKEY_CLASSES_ROOT,
    HKEY_CURRENT_CONFIG, HKEY_CURRENT_USER, HKEY_LOCAL_MACHINE, HKEY_USERS, REG_BINARY,
    REG_DWORD, REG_EXPAND_SZ, REG_MULTI_SZ, REG_QWORD, REG_SZ,
};

fn utf16_bytes(s: &str) -> Vec<u8> {
    s.encode_utf16().flat_map(|u| u.to_le_bytes()).collect()
}

#[test]
fn root_keys_are_distinct_and_match_the_documented_sign_extended_sentinels() {
    assert_eq!(HKEY_CLASSES_ROOT as usize, 0xFFFF_FFFF_8000_0000);
    assert_eq!(HKEY_CURRENT_USER as usize, 0xFFFF_FFFF_8000_0001);
    assert_eq!(HKEY_LOCAL_MACHINE as usize, 0xFFFF_FFFF_8000_0002);
    assert_eq!(HKEY_USERS as usize, 0xFFFF_FFFF_8000_0003);
    assert_eq!(HKEY_CURRENT_CONFIG as usize, 0xFFFF_FFFF_8000_0005);
    let keys = [
        HKEY_CLASSES_ROOT,
        HKEY_CURRENT_USER,
        HKEY_LOCAL_MACHINE,
        HKEY_USERS,
        HKEY_CURRENT_CONFIG,
    ];
    for i in 0..keys.len() {
        for j in 0..keys.len() {
            if i != j {
                assert_ne!(keys[i], keys[j]);
            }
        }
    }
}

#[test]
fn wide_string_drops_exactly_one_trailing_nul() {
    assert_eq!(decode_wide_string(&utf16_bytes("abc\0")), "abc");
    assert_eq!(decode_wide_string(&utf16_bytes("abc")), "abc");
    assert_eq!(decode_wide_string(&utf16_bytes("abc\0\0")), "abc\0");
    assert_eq!(decode_wide_string(&[]), "");
    let mut odd = utf16_bytes("ab");
    odd.push(0x41);
    assert_eq!(decode_wide_string(&odd), "ab");
}

#[test]
fn multi_sz_splits_at_nuls_and_stops_at_the_closing_empty_run() {
    assert_eq!(
        decode_multi_sz(&utf16_bytes("one\0two\0\0")),
        vec!["one".to_string(), "two".to_string()]
    );
    assert_eq!(decode_multi_sz(&utf16_bytes("a\0\0b\0")), vec!["a".to_string()]);
    assert_eq!(
        decode_multi_sz(&[0x61, 0, 0, 0, 0, 0, 0x62, 0, 0, 0, 0, 0]),
        vec!["a".to_string()]
    );
    assert_eq!(
        decode_multi_sz(&utf16_bytes("a\0bc\0\0")),
        vec!["a".to_string(), "bc".to_string()]
    );
    assert_eq!(decode_multi_sz(&utf16_bytes("\0a\0\0")), Vec::<String>::new());
    assert_eq!(decode_multi_sz(&utf16_bytes("tail")), Vec::<String>::new());
    assert_eq!(decode_multi_sz(&utf16_bytes("x\0tail")), vec!["x".to_string()]);
    assert_eq!(decode_multi_sz(&[]), Vec::<String>::new());
}

#[test]
fn integers_are_little_endian_and_zero_padded() {
    assert_eq!(decode_u32_le(&[0x78, 0x56, 0x34, 0x12]), 0x1234_5678);
    assert_eq!(decode_u32_le(&[0x01, 0x02]), 0x0201);
    assert_eq!(decode_u32_le(&[1, 0, 0, 0, 9, 9]), 1);
    assert_eq!(decode_u32_le(&[]), 0);
    assert_eq!(
        decode_u64_le(&[1, 2, 3, 4, 5, 6, 7, 8]),
        0x0807_0605_0403_0201
    );
    assert_eq!(decode_u64_le(&[0xFF]), 0xFF);
}

#[test]
fn registry_values_decode_by_type() {
    assert_eq!(
        decode_registry_value(REG_SZ, utf16_bytes("hello\0"), 12),
        RegistryValue::Sz("hello".to_string())
    );
    assert_eq!(
        decode_registry_value(REG_EXPAND_SZ, utf16_bytes("%SystemRoot%\0"), 26),
        RegistryValue::ExpandSz("%SystemRoot%".to_string())
    );
    assert_eq!(
        decode_registry_value(REG_DWORD, vec![4, 0, 0, 0], 4),
        RegistryValue::Dword(4)
    );
    assert_eq!(
        decode_registry_value(REG_QWORD, vec![0, 0, 0, 0, 1, 0, 0, 0], 8),
        RegistryValue::Qword(0x1_0000_0000)
    );
    assert_eq!(
        decode_registry_value(REG_MULTI_SZ, utf16_bytes("a\0b\0\0"), 10),
        RegistryValue::MultiSz(vec!["a".to_string(), "b".to_string()])
    );
    assert_eq!(
        decode_registry_value(REG_BINARY, vec![1, 2, 3, 4], 3),
        RegistryValue::Binary(vec![1, 2, 3])
    );
    assert_eq!(
        decode_registry_value(REG_BINARY, vec![1, 2], 9),
        RegistryValue::Binary(vec![1, 2])
    );
    assert_eq!(decode_registry_value(6, vec![1, 2], 2), RegistryValue::Untyped);
    assert_eq!(decode_registry_value(0, vec![], 0), RegistryValue::Untyped);
}

#[test]
fn a_nonzero_status_is_that_error() {
    assert_eq!(status_result(0), Ok(()));
    assert_eq!(status_result(2), Err(Win32Error::ERROR_FILE_NOT_FOUND()));
    assert_eq!(status_result(-1), Err(Win32Error::from_raw(0xFFFF_FFFF)));
}

#[test]
fn only_the_opened_disposition_means_an_existing_key() {
    assert_eq!(key_disposition(2), KeyDisposition::OpenedExistingKey);
    assert_eq!(key_disposition(1), KeyDisposition::CreatedNewKey);
    assert_eq!(key_disposition(0), KeyDisposition::CreatedNewKey);
}

#[test]
fn multi_sz_data_in_standard_form_reads_back_as_its_strings() {
    let strings = ["PATH", "C:\\Windows", "\u{1F600}x"];
    let mut units: Vec<u16> = Vec::new();
    for s in strings {
        units.extend(s.encode_utf16());
        units.push(0);
    }
    units.push(0);
    let bytes: Vec<u8> = units.iter().flat_map(|u| u.to_le_bytes()).collect();
    assert_eq!(decode_multi_sz(&bytes), strings.map(|s| s.to_string()).to_vec());
    assert_eq!(decode_multi_sz(&[0, 0]), Vec::<String>::new());
}

#[test]
fn string_data_stored_with_its_terminator_reads_back_as_itself() {
    for s in ["", "x", "ends with nul\0", "\u{4e2d}\u{6587}"] {
        let mut bytes = utf16_bytes(s);
        bytes.extend_from_slice(&[0, 0]);
        assert_eq!(decode_wide_string(&bytes), s);
    }
}
