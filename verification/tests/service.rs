use rusty_win32::error::Win32Error;
use rusty_win32::service::{
    enum_services_step, parse_service_records, parse_service_status, service_records_readable,
    EnumStep, ServiceStatus,
};

fn status_bytes(values: [u32; 9]) -> Vec<u8> {
    values.iter().flat_map(|v| v.to_le_bytes()).collect()
}

#[test]
fn a_status_record_is_nine_words() {
    let b = status_bytes([0x10, 4, 1, 0, 0, 0, 0, 880, 0]);
    assert_eq!(
        parse_service_status(&b),
        ServiceStatus {
            service_type: 0x10,
            current_state: 4,
            controls_accepted: 1,
            win32_exit_code: 0,
            service_specific_exit_code: 0,
            check_point: 0,
            wait_hint: 0,
            process_id: 880,
            service_flags: 0,
        }
    );
}

#[test]
fn enumeration_records_point_at_their_names_in_the_same_buffer() {
    let base: usize = 0x10_0000;
    let name: Vec<u8> = "EventLog\0".encode_utf16().flat_map(|u| u.to_le_bytes()).collect();
    let display: Vec<u8> = "Windows Event Log\0".encode_utf16().flat_map(|u| u.to_le_bytes()).collect();
    let name_at = base + 2 * 56;
    let display_at = name_at + name.len();
    let mut b = Vec::new();
    b.extend_from_slice(&(name_at as u64).to_le_bytes());
    b.extend_from_slice(&(display_at as u64).to_le_bytes());
    b.extend_from_slice(&status_bytes([0x20, 4, 5, 0, 0, 0, 0, 1234, 0]));
    b.extend_from_slice(&[0; 4]);
    b.extend_from_slice(&0u64.to_le_bytes());
    b.extend_from_slice(&(display_at as u64).to_le_bytes());
    b.extend_from_slice(&status_bytes([0x10, 1, 0, 1077, 0, 0, 0, 0, 0]));
    b.extend_from_slice(&[0; 4]);
    b.extend_from_slice(&name);
    b.extend_from_slice(&display);
    assert!(service_records_readable(&b, base, 2));
    let v = parse_service_records(&b, base, 2);
    assert_eq!(v.len(), 2);
    assert_eq!(v[0].service_name, "EventLog");
    assert_eq!(v[0].display_name, "Windows Event Log");
    assert_eq!(v[0].current_state, 4);
    assert_eq!(v[0].process_id, 1234);
    assert_eq!(v[1].service_name, "");
    assert_eq!(v[1].display_name, "Windows Event Log");
    assert_eq!(v[1].win32_exit_code, 1077);
    assert_eq!(parse_service_records(&b, base, 0), vec![]);
}

#[test]
fn records_that_overrun_the_buffer_or_point_outside_it_are_not_readable() {
    let base: usize = 0x10_0000;
    let mut b = Vec::new();
    b.extend_from_slice(&0u64.to_le_bytes());
    b.extend_from_slice(&((base + 56) as u64).to_le_bytes());
    b.extend_from_slice(&[0; 40]);
    assert!(service_records_readable(&b, base, 0));
    assert!(service_records_readable(&b, base, 1));
    assert!(!service_records_readable(&b, base, 2));
    let mut outside = b.clone();
    outside[8..16].copy_from_slice(&((base + 57) as u64).to_le_bytes());
    assert!(!service_records_readable(&outside, base, 1));
    let mut below = b.clone();
    below[0..8].copy_from_slice(&((base - 1) as u64).to_le_bytes());
    assert!(!service_records_readable(&below, base, 1));
    assert!(!service_records_readable(&b, usize::MAX - 10, 0));
}

#[test]
fn enumeration_pages_and_grows() {
    let more = Win32Error::ERROR_MORE_DATA();
    assert_eq!(
        enum_services_step(true, Win32Error::SUCCESS(), 5, 0, 16384),
        EnumStep::Records { count: 5, last: true }
    );
    assert_eq!(
        enum_services_step(false, more, 5, 100, 16384),
        EnumStep::Records { count: 5, last: false }
    );
    assert_eq!(enum_services_step(false, more, 0, 100, 16384), EnumStep::Grow(32768));
    assert_eq!(enum_services_step(false, more, 0, 50000, 16384), EnumStep::Grow(50000));
    assert_eq!(
        enum_services_step(false, Win32Error::ERROR_ACCESS_DENIED(), 0, 0, 16384),
        EnumStep::Fail(Win32Error::ERROR_ACCESS_DENIED())
    );
}
