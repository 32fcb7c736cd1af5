use rusty_win32::error::{enumeration_failure, system_message_text, Win32Error};

#[test]
fn display_known_code() {
    assert_eq!(Win32Error::ERROR_ACCESS_DENIED().to_string(), "access is denied");
}

#[test]
fn display_unknown_code() {
    assert_eq!(
        Win32Error::from_raw(424242).to_string(),
        "unknown Win32 error 424242"
    );
}

#[test]
fn code_roundtrip() {
    assert_eq!(Win32Error::from_raw(5).code(), 5);
    assert_eq!(Win32Error::ERROR_ACCESS_DENIED().code(), 5);
}

#[test]
fn named_constants_are_distinct_values() {
    assert_ne!(
        Win32Error::ERROR_FILE_NOT_FOUND(),
        Win32Error::ERROR_PATH_NOT_FOUND()
    );
}

#[test]
fn converts_to_io_error_by_code() {
    let io_err: std::io::Error = Win32Error::ERROR_FILE_NOT_FOUND().into();
    assert_eq!(io_err.raw_os_error(), Some(2));
}

#[test]
fn display_of_success_and_of_code_zero_after_a_named_one() {
    assert_eq!(
        Win32Error::SUCCESS().to_string(),
        "the operation completed successfully"
    );
    assert_eq!(Win32Error::from_raw(0).to_string(), Win32Error::SUCCESS().to_string());
    assert_eq!(Win32Error::from_raw(4294967295).to_string(), "unknown Win32 error 4294967295");
    assert_eq!(Win32Error::from_raw(1).to_string(), "unknown Win32 error 1");
}

#[test]
fn every_named_code_has_its_value_and_text() {
    let cases: Vec<(Win32Error, u32, &str)> = vec![
        (Win32Error::ERROR_FILE_NOT_FOUND(), 2, "the system cannot find the file specified"),
        (Win32Error::ERROR_PATH_NOT_FOUND(), 3, "the system cannot find the path specified"),
        (Win32Error::ERROR_INVALID_HANDLE(), 6, "the handle is invalid"),
        (Win32Error::ERROR_NO_MORE_FILES(), 18, "there are no more files"),
        (Win32Error::ERROR_NOT_SUPPORTED(), 50, "the request is not supported"),
        (Win32Error::ERROR_INVALID_PARAMETER(), 87, "the parameter is incorrect"),
        (Win32Error::ERROR_BUFFER_OVERFLOW(), 111, "the file name is too long"),
        (Win32Error::ERROR_INSUFFICIENT_BUFFER(), 122, "the data area passed to a system call is too small"),
        (Win32Error::ERROR_ENVIRONMENT_VARIABLE_NOT_FOUND(), 203, "the system could not find the environment option that was entered"),
        (Win32Error::ERROR_MORE_DATA(), 234, "more data is available"),
        (Win32Error::ERROR_PIPE_CONNECTED(), 535, "a client is connected to the pipe"),
        (Win32Error::ERROR_IO_PENDING(), 997, "overlapped I/O operation is in progress"),
        (Win32Error::ERROR_NOT_A_REPARSE_POINT(), 4390, "the file or directory is not a reparse point"),
        (Win32Error::ERROR_INVALID_SID(), 1337, "the security ID structure is invalid"),
    ];
    for (e, code, text) in cases {
        assert_eq!(e.code(), code);
        assert_eq!(e, Win32Error::from_raw(code));
        assert_eq!(e.to_string(), text);
    }
}

#[test]
fn system_message_text_trims_the_trailing_line_break() {
    let units: Vec<u16> = "Access is denied.\r\n".encode_utf16().collect();
    assert_eq!(system_message_text(&units), Some("Access is denied.".to_string()));
    assert_eq!(system_message_text(&[]), None);
    let spaces: Vec<u16> = " \t ".encode_utf16().collect();
    assert_eq!(system_message_text(&spaces), Some(String::new()));
    assert_eq!(system_message_text(&[0xD800, 0x41]), Some("\u{FFFD}A".to_string()));
}

#[test]
fn enumeration_failure_treats_no_more_files_as_the_end() {
    assert_eq!(enumeration_failure(Win32Error::ERROR_NO_MORE_FILES()), None);
    assert_eq!(
        enumeration_failure(Win32Error::ERROR_ACCESS_DENIED()),
        Some(Win32Error::ERROR_ACCESS_DENIED())
    );
}
