use rusty_win32::error::Win32Error;
use rusty_win32::volume::{
    logical_drives_from_mask, next_volume_name, DriveType, FindVolumes, VolumeInformation,
};

fn units(s: &str, len: usize) -> Vec<u16> {
    let mut v: Vec<u16> = s.encode_utf16().collect();
    v.resize(len, 0);
    v
}

#[test]
fn drive_letters_follow_the_bitmask() {
    assert_eq!(logical_drives_from_mask(0b1101), vec!['A', 'C', 'D']);
    assert_eq!(logical_drives_from_mask(0), Vec::<char>::new());
    assert_eq!(logical_drives_from_mask(1 << 26), Vec::<char>::new());
    let all: Vec<char> = ('A'..='Z').collect();
    assert_eq!(logical_drives_from_mask(0x03FF_FFFF), all);
    assert_eq!(logical_drives_from_mask(u32::MAX), all);
}

#[test]
fn drive_types_read_their_raw_values() {
    assert_eq!(DriveType::from_raw(0), DriveType::Unknown);
    assert_eq!(DriveType::from_raw(1), DriveType::NoRootDir);
    assert_eq!(DriveType::from_raw(2), DriveType::Removable);
    assert_eq!(DriveType::from_raw(3), DriveType::Fixed);
    assert_eq!(DriveType::from_raw(4), DriveType::Remote);
    assert_eq!(DriveType::from_raw(5), DriveType::CdRom);
    assert_eq!(DriveType::from_raw(6), DriveType::RamDisk);
    assert_eq!(DriveType::from_raw(7), DriveType::Unknown);
}

#[test]
fn volume_information_reads_names_up_to_their_nul() {
    let v = VolumeInformation::from_buffers(&units("System", 261), 0x1234, 255, 7, &units("NTFS", 261));
    assert_eq!(v.volume_name, "System");
    assert_eq!(v.file_system_name, "NTFS");
    assert_eq!(v.serial_number, 0x1234);
    assert_eq!(v.maximum_component_length, 255);
    assert_eq!(v.file_system_flags, 7);
}

#[test]
fn a_volume_enumeration_hands_out_its_first_name_once() {
    let mut f = FindVolumes::new(9, &units("\\\\?\\Volume{1}\\", 50));
    assert_eq!(f.find_handle(), 9);
    assert_eq!(f.take_pending(), Some("\\\\?\\Volume{1}\\".to_string()));
    assert_eq!(f.take_pending(), None);
    let buf = units("\\\\?\\Volume{2}\\", 50);
    assert_eq!(
        next_volume_name(true, &buf, Win32Error::SUCCESS()),
        Some(Ok("\\\\?\\Volume{2}\\".to_string()))
    );
    assert_eq!(next_volume_name(false, &buf, Win32Error::ERROR_NO_MORE_FILES()), None);
    assert_eq!(
        next_volume_name(false, &buf, Win32Error::ERROR_NOT_READY()),
        Some(Err(Win32Error::ERROR_NOT_READY()))
    );
}
