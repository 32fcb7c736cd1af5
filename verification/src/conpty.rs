//! Pseudoconsoles: how an `HRESULT` a pseudoconsole call returns reads as
//! a Win32 error.

use vstd::prelude::*;

use crate::error::Win32Error;

verus! {

/// `PROC_THREAD_ATTRIBUTE_PSEUDOCONSOLE`.
pub const PROC_THREAD_ATTRIBUTE_PSEUDOCONSOLE: usize = 0x0002_0016;

/// The facility bits of an `HRESULT`, with its severity bit.
pub const HRESULT_WIN32_FACILITY_MASK: u32 = 0xFFFF_0000;

/// A failure `HRESULT` in `FACILITY_WIN32`.
pub const HRESULT_WIN32_FACILITY: u32 = 0x8007_0000;

/// The Win32 error an `HRESULT` carries: the low 16 bits of a
/// `FACILITY_WIN32` failure (the reverse of `HRESULT_FROM_WIN32`), and the
/// whole value, as unsigned, for any other.
pub open spec fn hresult_error_code(hr: i32) -> u32 {
    let u = hr as u32;
    if u & HRESULT_WIN32_FACILITY_MASK == HRESULT_WIN32_FACILITY {
        u & 0xFFFF
    } else {
        u
    }
}

/// Reads the Win32 error an `HRESULT` carries.
pub fn win32_error_from_hresult(hr: i32) -> (e: Win32Error)
    ensures
        e@ == hresult_error_code(hr),
{
    let u = hr as u32;
    if u & HRESULT_WIN32_FACILITY_MASK == HRESULT_WIN32_FACILITY {
        Win32Error::from_raw(u & 0xFFFF)
    } else {
        Win32Error::from_raw(u)
    }
}

/// The result of a call that returned `hr`: a negative `HRESULT` is a
/// failure carrying its Win32 error, anything else success.
pub fn hresult_result(hr: i32) -> (r: Result<(), Win32Error>)
    ensures
        hr >= 0 ==> r is Ok,
        hr < 0 ==> (r matches Err(e) && e@ == hresult_error_code(hr)),
{
    if hr < 0 {
        Err(win32_error_from_hresult(hr))
    } else {
        Ok(())
    }
}

/// The Win32 error wrapped as `HRESULT_FROM_WIN32` reads back as itself.
pub proof fn lemma_hresult_from_win32(code: u16)
    ensures
        hresult_error_code((0x8007_0000u32 | code as u32) as i32) == code,
{
    let u = 0x8007_0000u32 | code as u32;
    assert(((u as i32) as u32) == u) by (bit_vector);
    assert(u & 0xFFFF_0000u32 == 0x8007_0000u32) by (bit_vector)
        requires
            u == 0x8007_0000u32 | code as u32,
    ;
    assert(u & 0xFFFFu32 == code as u32) by (bit_vector)
        requires
            u == 0x8007_0000u32 | code as u32,
    ;
}

} // verus!
