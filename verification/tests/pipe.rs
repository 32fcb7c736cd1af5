use rusty_win32::error::Win32Error;
use rusty_win32::pipe::{connect_failure, full_pipe_name, PipeInfo};

#[test]
fn pipe_names_live_under_the_pipe_namespace() {
    let expected: Vec<u16> = "\\\\.\\pipe\\rusty_win32_test_pipe_basic\0".encode_utf16().collect();
    assert_eq!(full_pipe_name("rusty_win32_test_pipe_basic"), expected);
    let empty: Vec<u16> = "\\\\.\\pipe\\\0".encode_utf16().collect();
    assert_eq!(full_pipe_name(""), empty);
}

#[test]
fn pipe_information_reads_the_end_and_type_flags() {
    assert_eq!(
        PipeInfo::from_raw(5, 512, 256, 1),
        PipeInfo { is_server_end: true, is_message_type: true, out_buffer_size: 512, in_buffer_size: 256, max_instances: 1 }
    );
    let client_bytes = PipeInfo::from_raw(0, 1, 2, 255);
    assert!(!client_bytes.is_server_end && !client_bytes.is_message_type);
    let client_messages = PipeInfo::from_raw(4, 1, 2, 3);
    assert!(!client_messages.is_server_end && client_messages.is_message_type);
}

#[test]
fn an_already_connected_client_is_a_connection() {
    assert_eq!(connect_failure(Win32Error::ERROR_PIPE_CONNECTED()), Ok(()));
    assert_eq!(
        connect_failure(Win32Error::ERROR_NO_DATA()),
        Err(Win32Error::ERROR_NO_DATA())
    );
}
