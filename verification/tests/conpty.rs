use rusty_win32::conpty::{hresult_result, win32_error_from_hresult};
use rusty_win32::error::Win32Error;

#[test]
fn win32_facility_hresults_unwrap_to_their_code() {
    assert_eq!(win32_error_from_hresult(0x8007_0005u32 as i32), Win32Error::ERROR_ACCESS_DENIED());
    assert_eq!(win32_error_from_hresult(0x8007_0057u32 as i32), Win32Error::ERROR_INVALID_PARAMETER());
    assert_eq!(win32_error_from_hresult(0x8000_4005u32 as i32), Win32Error::from_raw(0x8000_4005));
    assert_eq!(win32_error_from_hresult(0x0007_0005), Win32Error::from_raw(0x0007_0005));
}

#[test]
fn negative_hresults_are_failures() {
    assert_eq!(hresult_result(0), Ok(()));
    assert_eq!(hresult_result(1), Ok(()));
    assert_eq!(hresult_result(0x8007_000Eu32 as i32), Err(Win32Error::ERROR_OUTOFMEMORY()));
}
