use rusty_win32::error::Win32Error;
use rusty_win32::fs::{
    combine_halves, decode_find_file_name, dir_entry_from_find_data, next_dir_entry,
    symlink_flags, symlink_target_from_reparse_data, ByHandleFileInformation, FileAttributeData,
    FileInfo, FileInfoByHandle, FindData, ReadDir, FILE_ATTRIBUTE_DIRECTORY,
};
use rusty_win32::time::{FileTime, Timespec};

const EPOCH: FileTime = FileTime { low: 0xD53E_8000, high: 0x019D_B1DE };
const EPOCH_PLUS_1_5: FileTime = FileTime { low: 0xD623_61C0, high: 0x019D_B1DE };

fn name_units(name: &str) -> [u16; 260] {
    let mut units = [0u16; 260];
    for (i, u) in name.encode_utf16().enumerate() {
        units[i] = u;
    }
    units
}

fn find_data(name: &str) -> FindData {
    FindData {
        file_attributes: FILE_ATTRIBUTE_DIRECTORY,
        creation_time: EPOCH,
        last_access_time: EPOCH_PLUS_1_5,
        last_write_time: EPOCH,
        file_size_high: 1,
        file_size_low: 2,
        file_name: name_units(name),
    }
}

fn symlink_reparse_data(print_name: &str, substitute: &str) -> Vec<u8> {
    let sub: Vec<u8> = substitute.encode_utf16().flat_map(|u| u.to_le_bytes()).collect();
    let print: Vec<u8> = print_name.encode_utf16().flat_map(|u| u.to_le_bytes()).collect();
    let mut b = Vec::new();
    b.extend_from_slice(&0xA000_000Cu32.to_le_bytes());
    b.extend_from_slice(&((12 + sub.len() + print.len()) as u16).to_le_bytes());
    b.extend_from_slice(&0u16.to_le_bytes());
    b.extend_from_slice(&0u16.to_le_bytes());
    b.extend_from_slice(&(sub.len() as u16).to_le_bytes());
    b.extend_from_slice(&(sub.len() as u16).to_le_bytes());
    b.extend_from_slice(&(print.len() as u16).to_le_bytes());
    b.extend_from_slice(&0u32.to_le_bytes());
    b.extend_from_slice(&sub);
    b.extend_from_slice(&print);
    b.resize(16 * 1024, 0);
    b
}

#[test]
fn sizes_join_their_two_halves() {
    assert_eq!(combine_halves(1, 2), 0x1_0000_0002);
    assert_eq!(combine_halves(0, 11), 11);
    assert_eq!(combine_halves(0xFFFF_FFFF, 0xFFFF_FFFF), u64::MAX);
}

#[test]
fn symlinks_are_created_unprivileged() {
    assert_eq!(symlink_flags(false), 0x2);
    assert_eq!(symlink_flags(true), 0x3);
}

#[test]
fn file_information_converts_timestamps_and_size() {
    let d = FileAttributeData {
        file_attributes: 0x20,
        creation_time: EPOCH,
        last_access_time: EPOCH_PLUS_1_5,
        last_write_time: EPOCH,
        file_size_high: 0,
        file_size_low: 11,
    };
    let f = FileInfo::from_attribute_data(&d);
    assert_eq!(f.attributes, 0x20);
    assert_eq!(f.creation_time, Timespec { secs: 0, nanos: 0 });
    assert_eq!(f.last_access_time, Timespec { secs: 1, nanos: 500_000_000 });
    assert_eq!(f.size, 11);
    let h = ByHandleFileInformation {
        file_attributes: 0x20,
        creation_time: EPOCH,
        last_access_time: EPOCH,
        last_write_time: EPOCH_PLUS_1_5,
        volume_serial_number: 0xABCD,
        file_size_high: 2,
        file_size_low: 3,
        number_of_links: 2,
        file_index_high: 4,
        file_index_low: 5,
    };
    let g = FileInfoByHandle::from_handle_information(&h);
    assert_eq!(g.size, 0x2_0000_0003);
    assert_eq!(g.file_index, 0x4_0000_0005);
    assert_eq!(g.link_count, 2);
    assert_eq!(g.volume_serial_number, 0xABCD);
    assert_eq!(g.last_write_time, Timespec { secs: 1, nanos: 500_000_000 });
}

#[test]
fn directory_entries_come_from_find_data() {
    let e = dir_entry_from_find_data(&find_data("notes.txt"));
    assert_eq!(e.file_name, "notes.txt");
    assert_eq!(e.file_attributes, FILE_ATTRIBUTE_DIRECTORY);
    assert_eq!(e.file_size, 0x1_0000_0002);
    assert_eq!(e.last_access_time, Timespec { secs: 1, nanos: 500_000_000 });
    assert_eq!(decode_find_file_name(&name_units("a\u{e9}b")), "a\u{e9}b");
}

#[test]
fn a_listing_hands_out_its_first_entry_once() {
    let mut rd = ReadDir::new(77, find_data("first"));
    assert_eq!(rd.find_handle(), 77);
    let first = rd.take_pending().expect("the first entry is pending");
    assert_eq!(dir_entry_from_find_data(&first).file_name, "first");
    assert!(rd.take_pending().is_none());
    assert_eq!(rd.find_handle(), 77);
}

#[test]
fn a_listing_ends_at_no_more_files() {
    let d = find_data("next");
    assert_eq!(
        next_dir_entry(true, &d, Win32Error::SUCCESS()).unwrap().unwrap().file_name,
        "next"
    );
    assert!(next_dir_entry(false, &d, Win32Error::ERROR_NO_MORE_FILES()).is_none());
    assert_eq!(
        next_dir_entry(false, &d, Win32Error::ERROR_ACCESS_DENIED()),
        Some(Err(Win32Error::ERROR_ACCESS_DENIED()))
    );
}

#[test]
fn a_symlink_target_is_its_print_name() {
    let target = "C:\\Users\\me\\target.txt";
    let data = symlink_reparse_data(target, "\\??\\C:\\Users\\me\\target.txt");
    assert_eq!(symlink_target_from_reparse_data(&data), Ok(target.to_string()));
}

#[test]
fn a_reparse_point_of_another_kind_is_not_supported() {
    let mut data = symlink_reparse_data("x", "y");
    data[0..4].copy_from_slice(&0xA000_0003u32.to_le_bytes());
    assert_eq!(
        symlink_target_from_reparse_data(&data),
        Err(Win32Error::ERROR_NOT_SUPPORTED())
    );
}
