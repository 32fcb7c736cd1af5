//! `GetLastError()`-style Win32 error codes as a typed value, with the
//! fixed English text this library gives the common ones.

use vstd::prelude::*;
use vstd::string::StringExecFns;



verus! {

/// A Win32 error code, as `GetLastError()` reports it.
#[derive(Debug, Clone, Copy, PartialEq, Eq, Structural, Hash)]
pub struct Win32Error(u32);

impl View for Win32Error {
    type V = u32;

    closed spec fn view(&self) -> u32 {
        self.0
    }
}

/// Two errors are equal exactly when their codes are.
pub proof fn lemma_error_eq_code(a: Win32Error, b: Win32Error)
    ensures
        (a@ == b@) <==> a == b,
{
}

/// The message this library gives a code it names, `None` for any other.
pub open spec fn known_message(code: u32) -> Option<Seq<char>> {
    if code == 0 {
        Some("the operation completed successfully"@)
    } else if code == 2 {
        Some("the system cannot find the file specified"@)
    } else if code == 3 {
        Some("the system cannot find the path specified"@)
    } else if code == 5 {
        Some("access is denied"@)
    } else if code == 6 {
        Some("the handle is invalid"@)
    } else if code == 8 {
        Some("not enough storage is available to process this command"@)
    } else if code == 13 {
        Some("the data is invalid"@)
    } else if code == 14 {
        Some("not enough storage is available to complete this operation"@)
    } else if code == 21 {
        Some("the device is not ready"@)
    } else if code == 32 {
        Some("the process cannot access the file because it is being used by another process"@)
    } else if code == 38 {
        Some("reached the end of the file"@)
    } else if code == 50 {
        Some("the request is not supported"@)
    } else if code == 80 {
        Some("the file exists"@)
    } else if code == 87 {
        Some("the parameter is incorrect"@)
    } else if code == 111 {
        Some("the file name is too long"@)
    } else if code == 109 {
        Some("the pipe has been ended"@)
    } else if code == 120 {
        Some("this function is not supported on this system"@)
    } else if code == 122 {
        Some("the data area passed to a system call is too small"@)
    } else if code == 123 {
        Some("the filename, directory name, or volume label syntax is incorrect"@)
    } else if code == 183 {
        Some("cannot create a file when that file already exists"@)
    } else if code == 203 {
        Some("the system could not find the environment option that was entered"@)
    } else if code == 232 {
        Some("the pipe is being closed"@)
    } else if code == 234 {
        Some("more data is available"@)
    } else if code == 995 {
        Some("the I/O operation has been aborted because of either a thread exit or an application request"@)
    } else if code == 997 {
        Some("overlapped I/O operation is in progress"@)
    } else if code == 1168 {
        Some("element not found"@)
    } else if code == 1460 {
        Some("this operation returned because the timeout period expired"@)
    } else if code == 4390 {
        Some("the file or directory is not a reparse point"@)
    } else if code == 18 {
        Some("there are no more files"@)
    } else if code == 231 {
        Some("all pipe instances are busy"@)
    } else if code == 535 {
        Some("a client is connected to the pipe"@)
    } else if code == 1022 {
        Some("the buffer for the directory-change notifications overflowed"@)
    } else if code == 259 {
        Some("no more data is available"@)
    } else if code == 1337 {
        Some("the security ID structure is invalid"@)
    } else {
        None
    }
}

/// The decimal digit `d` as a `char`.
pub open spec fn digit_char(d: int) -> char {
    ((48 + d) as u32) as char
}

/// The decimal representation of `n`, most significant digit first, with
/// no leading zeros (`"0"` for zero).
pub open spec fn decimal(n: nat) -> Seq<char>
    decreases n,
{
    if n < 10 {
        seq![digit_char(n as int)]
    } else {
        decimal(n / 10).push(digit_char((n % 10) as int))
    }
}

/// The text a code reads as: its named message, or
/// `unknown Win32 error <code>` for a code this library does not name.
pub open spec fn display_text(code: u32) -> Seq<char> {
    match known_message(code) {
        Some(m) => m,
        None => "unknown Win32 error "@ + decimal(code as nat),
    }
}

/// Appends the decimal representation of `n` to `s`.
fn push_decimal(s: &mut String, n: u32)
    ensures
        final(s)@ == old(s)@ + decimal(n as nat),
    decreases n,
{
    if n >= 10 {
        push_decimal(s, n / 10);
    }
    let d = (n % 10) as u8;
    let c = (48u8 + d) as char;
    assert(c == digit_char((n % 10) as int));
    crate::wide::push_char(s, c);
    proof {
        if n < 10 {
            assert(old(s)@ + decimal(n as nat) =~= old(s)@.push(c));
        } else {
            assert(decimal(n as nat) == decimal((n / 10) as nat).push(c));
            assert(final(s)@ =~= old(s)@ + decimal(n as nat));
        }
    }
}

impl Win32Error {
    /// Wraps a raw Win32 error code (one already in hand from a documented
    /// return value rather than `GetLastError()`).
    pub fn from_raw(code: u32) -> (e: Win32Error)
        ensures
            e@ == code,
    {
        Win32Error(code)
    }

    /// The raw numeric code.
    pub fn code(self) -> (c: u32)
        ensures
            c == self@,
    {
        self.0
    }

    /// The code as the signed OS error number an `io::Error` carries: the
    /// same 32 bits read as an `i32`, so reading them back unsigned gives
    /// the code again.
    pub fn os_error_code(self) -> (c: i32)
        ensures
            c == (if self@ <= 0x7FFF_FFFF {
                self@ as int
            } else {
                self@ - 0x1_0000_0000
            }),
            (if c >= 0 {
                c as int
            } else {
                c + 0x1_0000_0000
            }) == self@,
    {
        if self.0 <= 0x7FFF_FFFF {
            self.0 as i32
        } else {
            -((0xFFFF_FFFFu32 - self.0) as i32) - 1
        }
    }

    /// The error's text: its named message, or `unknown Win32 error <code>`.
    pub fn to_string(&self) -> (s: String)
        ensures
            s@ == display_text(self@),
    {
        match self.0 {
            0 => String::from_str("the operation completed successfully"),
            2 => String::from_str("the system cannot find the file specified"),
            3 => String::from_str("the system cannot find the path specified"),
            5 => String::from_str("access is denied"),
            6 => String::from_str("the handle is invalid"),
            8 => String::from_str("not enough storage is available to process this command"),
            13 => String::from_str("the data is invalid"),
            14 => String::from_str("not enough storage is available to complete this operation"),
            21 => String::from_str("the device is not ready"),
            32 => String::from_str("the process cannot access the file because it is being used by another process"),
            38 => String::from_str("reached the end of the file"),
            50 => String::from_str("the request is not supported"),
            80 => String::from_str("the file exists"),
            87 => String::from_str("the parameter is incorrect"),
            111 => String::from_str("the file name is too long"),
            109 => String::from_str("the pipe has been ended"),
            120 => String::from_str("this function is not supported on this system"),
            122 => String::from_str("the data area passed to a system call is too small"),
            123 => String::from_str("the filename, directory name, or volume label syntax is incorrect"),
            183 => String::from_str("cannot create a file when that file already exists"),
            203 => String::from_str("the system could not find the environment option that was entered"),
            232 => String::from_str("the pipe is being closed"),
            234 => String::from_str("more data is available"),
            995 => String::from_str("the I/O operation has been aborted because of either a thread exit or an application request"),
            997 => String::from_str("overlapped I/O operation is in progress"),
            1168 => String::from_str("element not found"),
            1460 => String::from_str("this operation returned because the timeout period expired"),
            4390 => String::from_str("the file or directory is not a reparse point"),
            18 => String::from_str("there are no more files"),
            231 => String::from_str("all pipe instances are busy"),
            535 => String::from_str("a client is connected to the pipe"),
            1022 => String::from_str("the buffer for the directory-change notifications overflowed"),
            259 => String::from_str("no more data is available"),
            1337 => String::from_str("the security ID structure is invalid"),
            other => {
                let mut s = String::from_str("unknown Win32 error ");
                push_decimal(&mut s, other);
                s
            },
        }
    }

    /// `SUCCESS` (0).
    #[allow(non_snake_case)]
    pub fn SUCCESS() -> (e: Win32Error)
        ensures
            e@ == 0,
    {
        Win32Error(0)
    }

    /// `ERROR_FILE_NOT_FOUND` (2).
    #[allow(non_snake_case)]
    pub fn ERROR_FILE_NOT_FOUND() -> (e: Win32Error)
        ensures
            e@ == 2,
    {
        Win32Error(2)
    }

    /// `ERROR_PATH_NOT_FOUND` (3).
    #[allow(non_snake_case)]
    pub fn ERROR_PATH_NOT_FOUND() -> (e: Win32Error)
        ensures
            e@ == 3,
    {
        Win32Error(3)
    }

    /// `ERROR_ACCESS_DENIED` (5).
    #[allow(non_snake_case)]
    pub fn ERROR_ACCESS_DENIED() -> (e: Win32Error)
        ensures
            e@ == 5,
    {
        Win32Error(5)
    }

    /// `ERROR_INVALID_HANDLE` (6).
    #[allow(non_snake_case)]
    pub fn ERROR_INVALID_HANDLE() -> (e: Win32Error)
        ensures
            e@ == 6,
    {
        Win32Error(6)
    }

    /// `ERROR_NOT_ENOUGH_MEMORY` (8).
    #[allow(non_snake_case)]
    pub fn ERROR_NOT_ENOUGH_MEMORY() -> (e: Win32Error)
        ensures
            e@ == 8,
    {
        Win32Error(8)
    }

    /// `ERROR_INVALID_DATA` (13).
    #[allow(non_snake_case)]
    pub fn ERROR_INVALID_DATA() -> (e: Win32Error)
        ensures
            e@ == 13,
    {
        Win32Error(13)
    }

    /// `ERROR_OUTOFMEMORY` (14).
    #[allow(non_snake_case)]
    pub fn ERROR_OUTOFMEMORY() -> (e: Win32Error)
        ensures
            e@ == 14,
    {
        Win32Error(14)
    }

    /// `ERROR_NOT_READY` (21).
    #[allow(non_snake_case)]
    pub fn ERROR_NOT_READY() -> (e: Win32Error)
        ensures
            e@ == 21,
    {
        Win32Error(21)
    }

    /// `ERROR_SHARING_VIOLATION` (32).
    #[allow(non_snake_case)]
    pub fn ERROR_SHARING_VIOLATION() -> (e: Win32Error)
        ensures
            e@ == 32,
    {
        Win32Error(32)
    }

    /// `ERROR_HANDLE_EOF` (38).
    #[allow(non_snake_case)]
    pub fn ERROR_HANDLE_EOF() -> (e: Win32Error)
        ensures
            e@ == 38,
    {
        Win32Error(38)
    }

    /// `ERROR_NOT_SUPPORTED` (50).
    #[allow(non_snake_case)]
    pub fn ERROR_NOT_SUPPORTED() -> (e: Win32Error)
        ensures
            e@ == 50,
    {
        Win32Error(50)
    }

    /// `ERROR_FILE_EXISTS` (80).
    #[allow(non_snake_case)]
    pub fn ERROR_FILE_EXISTS() -> (e: Win32Error)
        ensures
            e@ == 80,
    {
        Win32Error(80)
    }

    /// `ERROR_INVALID_PARAMETER` (87).
    #[allow(non_snake_case)]
    pub fn ERROR_INVALID_PARAMETER() -> (e: Win32Error)
        ensures
            e@ == 87,
    {
        Win32Error(87)
    }

    /// `ERROR_BUFFER_OVERFLOW` (111).
    #[allow(non_snake_case)]
    pub fn ERROR_BUFFER_OVERFLOW() -> (e: Win32Error)
        ensures
            e@ == 111,
    {
        Win32Error(111)
    }

    /// `ERROR_BROKEN_PIPE` (109).
    #[allow(non_snake_case)]
    pub fn ERROR_BROKEN_PIPE() -> (e: Win32Error)
        ensures
            e@ == 109,
    {
        Win32Error(109)
    }

    /// `ERROR_CALL_NOT_IMPLEMENTED` (120).
    #[allow(non_snake_case)]
    pub fn ERROR_CALL_NOT_IMPLEMENTED() -> (e: Win32Error)
        ensures
            e@ == 120,
    {
        Win32Error(120)
    }

    /// `ERROR_INSUFFICIENT_BUFFER` (122).
    #[allow(non_snake_case)]
    pub fn ERROR_INSUFFICIENT_BUFFER() -> (e: Win32Error)
        ensures
            e@ == 122,
    {
        Win32Error(122)
    }

    /// `ERROR_INVALID_NAME` (123).
    #[allow(non_snake_case)]
    pub fn ERROR_INVALID_NAME() -> (e: Win32Error)
        ensures
            e@ == 123,
    {
        Win32Error(123)
    }

    /// `ERROR_ALREADY_EXISTS` (183).
    #[allow(non_snake_case)]
    pub fn ERROR_ALREADY_EXISTS() -> (e: Win32Error)
        ensures
            e@ == 183,
    {
        Win32Error(183)
    }

    /// `ERROR_ENVIRONMENT_VARIABLE_NOT_FOUND` (203).
    #[allow(non_snake_case)]
    pub fn ERROR_ENVIRONMENT_VARIABLE_NOT_FOUND() -> (e: Win32Error)
        ensures
            e@ == 203,
    {
        Win32Error(203)
    }

    /// `ERROR_NO_DATA` (232).
    #[allow(non_snake_case)]
    pub fn ERROR_NO_DATA() -> (e: Win32Error)
        ensures
            e@ == 232,
    {
        Win32Error(232)
    }

    /// `ERROR_MORE_DATA` (234).
    #[allow(non_snake_case)]
    pub fn ERROR_MORE_DATA() -> (e: Win32Error)
        ensures
            e@ == 234,
    {
        Win32Error(234)
    }

    /// `ERROR_OPERATION_ABORTED` (995).
    #[allow(non_snake_case)]
    pub fn ERROR_OPERATION_ABORTED() -> (e: Win32Error)
        ensures
            e@ == 995,
    {
        Win32Error(995)
    }

    /// `ERROR_IO_PENDING` (997).
    #[allow(non_snake_case)]
    pub fn ERROR_IO_PENDING() -> (e: Win32Error)
        ensures
            e@ == 997,
    {
        Win32Error(997)
    }

    /// `ERROR_NOT_FOUND` (1168).
    #[allow(non_snake_case)]
    pub fn ERROR_NOT_FOUND() -> (e: Win32Error)
        ensures
            e@ == 1168,
    {
        Win32Error(1168)
    }

    /// `ERROR_TIMEOUT` (1460).
    #[allow(non_snake_case)]
    pub fn ERROR_TIMEOUT() -> (e: Win32Error)
        ensures
            e@ == 1460,
    {
        Win32Error(1460)
    }

    /// `ERROR_NOT_A_REPARSE_POINT` (4390).
    #[allow(non_snake_case)]
    pub fn ERROR_NOT_A_REPARSE_POINT() -> (e: Win32Error)
        ensures
            e@ == 4390,
    {
        Win32Error(4390)
    }

    /// `ERROR_NO_MORE_FILES` (18).
    #[allow(non_snake_case)]
    pub fn ERROR_NO_MORE_FILES() -> (e: Win32Error)
        ensures
            e@ == 18,
    {
        Win32Error(18)
    }

    /// `ERROR_PIPE_BUSY` (231).
    #[allow(non_snake_case)]
    pub fn ERROR_PIPE_BUSY() -> (e: Win32Error)
        ensures
            e@ == 231,
    {
        Win32Error(231)
    }

    /// `ERROR_PIPE_CONNECTED` (535).
    #[allow(non_snake_case)]
    pub fn ERROR_PIPE_CONNECTED() -> (e: Win32Error)
        ensures
            e@ == 535,
    {
        Win32Error(535)
    }

    /// `ERROR_NOTIFY_ENUM_DIR` (1022).
    #[allow(non_snake_case)]
    pub fn ERROR_NOTIFY_ENUM_DIR() -> (e: Win32Error)
        ensures
            e@ == 1022,
    {
        Win32Error(1022)
    }

    /// `ERROR_NO_MORE_ITEMS` (259).
    #[allow(non_snake_case)]
    pub fn ERROR_NO_MORE_ITEMS() -> (e: Win32Error)
        ensures
            e@ == 259,
    {
        Win32Error(259)
    }

    /// `ERROR_INVALID_SID` (1337).
    #[allow(non_snake_case)]
    pub fn ERROR_INVALID_SID() -> (e: Win32Error)
        ensures
            e@ == 1337,
    {
        Win32Error(1337)
    }
}

/// `true` for the characters with the Unicode `White_Space` property — the
/// set `char::is_whitespace` and `str::trim_end` go by.
pub open spec fn is_white_space(c: char) -> bool {
    let v = c as u32;
    (0x09 <= v <= 0x0D) || v == 0x20 || v == 0x85 || v == 0xA0 || v == 0x1680 || (0x2000 <= v
        <= 0x200A) || v == 0x2028 || v == 0x2029 || v == 0x202F || v == 0x205F || v == 0x3000
}

/// `s` without its trailing white space.
pub open spec fn trim_end(s: Seq<char>) -> Seq<char>
    decreases s.len(),
{
    if s.len() > 0 && is_white_space(s.last()) {
        trim_end(s.drop_last())
    } else {
        s
    }
}

fn char_is_white_space(c: char) -> (b: bool)
    ensures
        b == is_white_space(c),
{
    let v = c as u32;
    (0x09 <= v && v <= 0x0D) || v == 0x20 || v == 0x85 || v == 0xA0 || v == 0x1680 || (0x2000
        <= v && v <= 0x200A) || v == 0x2028 || v == 0x2029 || v == 0x202F || v == 0x205F || v
        == 0x3000
}

/// The text of a system message, as `FormatMessageW` wrote it into the
/// first `units.len()` units of its buffer: `None` when it wrote nothing
/// (the call failed), otherwise the decoded text without its trailing
/// white space (system messages end in `"\r\n"`).
pub fn system_message_text(units: &[u16]) -> (m: Option<String>)
    ensures
        units@.len() == 0 ==> m is None,
        units@.len() > 0 ==> (m matches Some(t) && t@ == trim_end(
            crate::wide::decode_utf16_lossy(units@),
        )),
{
    if units.len() == 0 {
        return None;
    }
    let chars = crate::wide::decode_chars(units);
    let mut end = chars.len();
    proof {
        assert(chars@.take(end as int) =~= chars@);
    }
    while end > 0 && char_is_white_space(chars[end - 1])
        invariant
            end <= chars@.len(),
            trim_end(chars@) == trim_end(chars@.take(end as int)),
        decreases end,
    {
        proof {
            let t = chars@.take(end as int);
            assert(t.drop_last() =~= chars@.take(end - 1));
        }
        end = end - 1;
    }
    proof {
        let t = chars@.take(end as int);
        assert(trim_end(t) == t);
    }
    let prefix = crate::wide::slice_prefix(chars.as_slice(), end);
    Some(crate::wide::string_from_chars(prefix))
}

/// The ordinary end of a `FindFirst*`/`*32First`-style enumeration: the
/// `*Next` call's failure code, read back as `None` when it is
/// `ERROR_NO_MORE_FILES` ("nothing left") and as `Some(error)` for a real
/// failure.
pub fn enumeration_failure(last_error: Win32Error) -> (r: Option<Win32Error>)
    ensures
        last_error@ == 18 ==> r is None,
        last_error@ != 18 ==> r == Some(last_error),
{
    if last_error.0 == 18 {
        None
    } else {
        Some(last_error)
    }
}

#[verifier::external_type_specification]
#[verifier::external_body]
pub struct ExIoError(std::io::Error);

/// `std::io::Error::from_raw_os_error`: an `io::Error` carrying the given
/// OS error code. Nothing is stated of the value: `io::Error` is opaque
/// here.
#[verifier::external_body]
fn io_error_from_raw_os_error(code: i32) -> std::io::Error {
    std::io::Error::from_raw_os_error(code)
}

impl vstd::std_specs::convert::FromSpecImpl<Win32Error> for std::io::Error {
    /// `io::Error` is opaque here, so the conversion claims no result.
    open spec fn obeys_from_spec() -> bool {
        false
    }

    open spec fn from_spec(v: Win32Error) -> std::io::Error {
        vstd::pervasive::arbitrary()
    }
}

impl From<Win32Error> for std::io::Error {
    fn from(e: Win32Error) -> std::io::Error {
        io_error_from_raw_os_error(e.os_error_code())
    }
}

} // verus!
