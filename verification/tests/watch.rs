use rusty_win32::error::Win32Error;
use rusty_win32::watch::{
    change_read_failure, change_wait_outcome, notifications_in, parse_notifications, ChangeWait,
    FileNotification, FILE_ACTION_ADDED, FILE_ACTION_REMOVED,
};

fn record(next: u32, action: u32, name: &str) -> Vec<u8> {
    let name_bytes: Vec<u8> = name.encode_utf16().flat_map(|u| u.to_le_bytes()).collect();
    let mut b = Vec::new();
    b.extend_from_slice(&next.to_le_bytes());
    b.extend_from_slice(&action.to_le_bytes());
    b.extend_from_slice(&(name_bytes.len() as u32).to_le_bytes());
    b.extend_from_slice(&name_bytes);
    b
}

#[test]
fn a_record_chain_decodes_in_order() {
    let mut first = record(0, FILE_ACTION_ADDED, "new_file.txt");
    let next = first.len() as u32 + 4;
    first[0..4].copy_from_slice(&next.to_le_bytes());
    first.extend_from_slice(&[0; 4]);
    first.extend_from_slice(&record(0, FILE_ACTION_REMOVED, "old.txt"));
    assert_eq!(
        parse_notifications(&first),
        vec![
            FileNotification { action: FILE_ACTION_ADDED, file_name: "new_file.txt".to_string() },
            FileNotification { action: FILE_ACTION_REMOVED, file_name: "old.txt".to_string() },
        ]
    );
}

#[test]
fn a_truncated_record_ends_the_chain() {
    let mut b = record(0, FILE_ACTION_ADDED, "abc");
    b[8..12].copy_from_slice(&100u32.to_le_bytes());
    assert_eq!(parse_notifications(&b), vec![]);
    assert_eq!(parse_notifications(&[1, 2, 3]), vec![]);
}

#[test]
fn only_the_transferred_bytes_are_read() {
    let b = record(0, FILE_ACTION_ADDED, "x");
    assert_eq!(notifications_in(&b, 0), vec![]);
    assert_eq!(notifications_in(&b, 10), vec![]);
    assert_eq!(
        notifications_in(&b, b.len() as u32),
        vec![FileNotification { action: FILE_ACTION_ADDED, file_name: "x".to_string() }]
    );
}

#[test]
fn pending_reads_and_waits() {
    assert_eq!(change_read_failure(Win32Error::ERROR_IO_PENDING()), None);
    assert_eq!(
        change_read_failure(Win32Error::ERROR_ACCESS_DENIED()),
        Some(Win32Error::ERROR_ACCESS_DENIED())
    );
    assert_eq!(change_wait_outcome(0), ChangeWait::Completed);
    assert_eq!(change_wait_outcome(258), ChangeWait::TimedOut);
    assert_eq!(change_wait_outcome(0xFFFF_FFFF), ChangeWait::Failed);
}
