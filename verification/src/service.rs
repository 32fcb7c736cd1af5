//! Services: access masks and states, a service's status record, the
//! records a status enumeration fills its buffer with, and how the
//! enumeration pages through a buffer that is too small.

use vstd::prelude::*;

use crate::bytes::{le_u32_at, le_u64_at};
use crate::error::Win32Error;
use crate::wide::{decode_until_nul, le_units};

verus! {

/// `SC_MANAGER_CONNECT`.
pub const SC_MANAGER_CONNECT: u32 = 0x0001;

/// `SC_MANAGER_ENUMERATE_SERVICE`.
pub const SC_MANAGER_ENUMERATE_SERVICE: u32 = 0x0004;

/// `SERVICE_QUERY_CONFIG`.
pub const SERVICE_QUERY_CONFIG: u32 = 0x0001;

/// `SERVICE_QUERY_STATUS`.
pub const SERVICE_QUERY_STATUS: u32 = 0x0004;

/// `SERVICE_START`.
pub const SERVICE_START: u32 = 0x0010;

/// `SC_ENUM_PROCESS_INFO`.
pub const SC_ENUM_PROCESS_INFO: u32 = 0;

/// `SC_STATUS_PROCESS_INFO`.
pub const SC_STATUS_PROCESS_INFO: u32 = 0;

/// `SERVICE_WIN32`.
pub const SERVICE_WIN32: u32 = 0x30;

/// `SERVICE_ACTIVE`.
pub const SERVICE_ACTIVE: u32 = 0x0000_0001;

/// `SERVICE_INACTIVE`.
pub const SERVICE_INACTIVE: u32 = 0x0000_0002;

/// `SERVICE_STATE_ALL`.
pub const SERVICE_STATE_ALL: u32 = 0x0000_0003;

/// `SERVICE_STOPPED`.
pub const SERVICE_STOPPED: u32 = 0x0000_0001;

/// `SERVICE_START_PENDING`.
pub const SERVICE_START_PENDING: u32 = 0x0000_0002;

/// `SERVICE_STOP_PENDING`.
pub const SERVICE_STOP_PENDING: u32 = 0x0000_0003;

/// `SERVICE_RUNNING`.
pub const SERVICE_RUNNING: u32 = 0x0000_0004;

/// `SERVICE_CONTINUE_PENDING`.
pub const SERVICE_CONTINUE_PENDING: u32 = 0x0000_0005;

/// `SERVICE_PAUSE_PENDING`.
pub const SERVICE_PAUSE_PENDING: u32 = 0x0000_0006;

/// `SERVICE_PAUSED`.
pub const SERVICE_PAUSED: u32 = 0x0000_0007;

/// The enumeration buffer's first size, in bytes.
pub const ENUM_INITIAL_BUFFER_LEN: u32 = 16 * 1024;

/// The byte length of one `ENUM_SERVICE_STATUS_PROCESSW` record.
pub const ENUM_RECORD_LEN: usize = 56;

/// Where a record's `SERVICE_STATUS_PROCESS` starts.
pub const ENUM_STATUS_OFFSET: usize = 16;

/// A service's `SERVICE_STATUS_PROCESS`.
#[derive(Debug, Clone, Copy, PartialEq, Eq, Structural)]
pub struct ServiceStatus {
    pub service_type: u32,
    pub current_state: u32,
    pub controls_accepted: u32,
    pub win32_exit_code: u32,
    pub service_specific_exit_code: u32,
    pub check_point: u32,
    pub wait_hint: u32,
    pub process_id: u32,
    pub service_flags: u32,
}

/// One service of an enumeration: its names and its status.
#[derive(Debug, Clone, PartialEq, Eq)]
pub struct ServiceStatusEntry {
    pub service_name: String,
    pub display_name: String,
    pub service_type: u32,
    pub current_state: u32,
    pub controls_accepted: u32,
    pub win32_exit_code: u32,
    pub service_specific_exit_code: u32,
    pub check_point: u32,
    pub wait_hint: u32,
    pub process_id: u32,
    pub service_flags: u32,
}

/// The `SERVICE_STATUS_PROCESS` at byte offset `off`: nine little-endian
/// `u32`s.
pub open spec fn status_at(b: Seq<u8>, off: int) -> ServiceStatus {
    ServiceStatus {
        service_type: le_u32_at(b, off),
        current_state: le_u32_at(b, off + 4),
        controls_accepted: le_u32_at(b, off + 8),
        win32_exit_code: le_u32_at(b, off + 12),
        service_specific_exit_code: le_u32_at(b, off + 16),
        check_point: le_u32_at(b, off + 20),
        wait_hint: le_u32_at(b, off + 24),
        process_id: le_u32_at(b, off + 28),
        service_flags: le_u32_at(b, off + 32),
    }
}

/// Each field of a `SERVICE_STATUS_PROCESS` is the little-endian `u32` at
/// its own place: the type at byte 0, the state at 4, the accepted controls
/// at 8, the Win32 exit code at 12, the service exit code at 16, the check
/// point at 20, the wait hint at 24, the process id at 28 and the flags at
/// 32.
pub proof fn lemma_status_field_offsets(b: Seq<u8>, off: int)
    ensures
        status_at(b, off).service_type == le_u32_at(b, off + 0),
        status_at(b, off).current_state == le_u32_at(b, off + 4),
        status_at(b, off).controls_accepted == le_u32_at(b, off + 8),
        status_at(b, off).win32_exit_code == le_u32_at(b, off + 12),
        status_at(b, off).service_specific_exit_code == le_u32_at(b, off + 16),
        status_at(b, off).check_point == le_u32_at(b, off + 20),
        status_at(b, off).wait_hint == le_u32_at(b, off + 24),
        status_at(b, off).process_id == le_u32_at(b, off + 28),
        status_at(b, off).service_flags == le_u32_at(b, off + 32),
{
}

/// Reads the status record a status query filled in (36 bytes).
pub fn parse_service_status(b: &[u8]) -> (s: ServiceStatus)
    requires
        b@.len() >= 36,
    ensures
        s == status_at(b@, 0),
        s.service_type == le_u32_at(b@, 0),
        s.current_state == le_u32_at(b@, 4),
        s.controls_accepted == le_u32_at(b@, 8),
        s.win32_exit_code == le_u32_at(b@, 12),
        s.service_specific_exit_code == le_u32_at(b@, 16),
        s.check_point == le_u32_at(b@, 20),
        s.wait_hint == le_u32_at(b@, 24),
        s.process_id == le_u32_at(b@, 28),
        s.service_flags == le_u32_at(b@, 32),
{
    read_status(b, 0)
}

fn read_status(b: &[u8], off: usize) -> (s: ServiceStatus)
    requires
        off + 36 <= b@.len(),
    ensures
        s == status_at(b@, off as int),
        s.service_type == le_u32_at(b@, off + 0),
        s.current_state == le_u32_at(b@, off + 4),
        s.controls_accepted == le_u32_at(b@, off + 8),
        s.win32_exit_code == le_u32_at(b@, off + 12),
        s.service_specific_exit_code == le_u32_at(b@, off + 16),
        s.check_point == le_u32_at(b@, off + 20),
        s.wait_hint == le_u32_at(b@, off + 24),
        s.process_id == le_u32_at(b@, off + 28),
        s.service_flags == le_u32_at(b@, off + 32),
{
    let n = b.len();
    assert(off + 36 <= n);
    ServiceStatus {
        service_type: crate::bytes::read_le_u32(b, off),
        current_state: crate::bytes::read_le_u32(b, off + 4),
        controls_accepted: crate::bytes::read_le_u32(b, off + 8),
        win32_exit_code: crate::bytes::read_le_u32(b, off + 12),
        service_specific_exit_code: crate::bytes::read_le_u32(b, off + 16),
        check_point: crate::bytes::read_le_u32(b, off + 20),
        wait_hint: crate::bytes::read_le_u32(b, off + 24),
        process_id: crate::bytes::read_le_u32(b, off + 28),
        service_flags: crate::bytes::read_le_u32(b, off + 32),
    }
}

/// A string pointer of a record is null or points inside the buffer that
/// starts at address `base`.
pub open spec fn pointer_in_buffer(b: Seq<u8>, base: int, p: int) -> bool {
    p == 0 || (base <= p <= base + b.len())
}

/// The text a record's string pointer `p` names: empty for null, else the
/// UTF-16 string at that place in the buffer, up to its NUL.
pub open spec fn string_at(b: Seq<u8>, base: int, p: int) -> Seq<char> {
    if p == 0 {
        Seq::empty()
    } else {
        decode_until_nul(le_units(b.subrange(p - base, b.len() as int)))
    }
}

/// The record at index `i` is in the buffer and its two string pointers
/// point inside it.
pub open spec fn record_readable(b: Seq<u8>, base: int, i: int) -> bool {
    &&& (i + 1) * ENUM_RECORD_LEN <= b.len()
    &&& pointer_in_buffer(b, base, le_u64_at(b, i * ENUM_RECORD_LEN) as int)
    &&& pointer_in_buffer(b, base, le_u64_at(b, i * ENUM_RECORD_LEN + 8) as int)
}

/// The entry the record at index `i` describes.
pub open spec fn entry_matches(e: ServiceStatusEntry, b: Seq<u8>, base: int, i: int) -> bool {
    let off = i * ENUM_RECORD_LEN;
    let st = status_at(b, off + ENUM_STATUS_OFFSET);
    &&& e.service_name@ == string_at(b, base, le_u64_at(b, off) as int)
    &&& e.display_name@ == string_at(b, base, le_u64_at(b, off + 8) as int)
    &&& e.service_type == st.service_type
    &&& e.current_state == st.current_state
    &&& e.controls_accepted == st.controls_accepted
    &&& e.win32_exit_code == st.win32_exit_code
    &&& e.service_specific_exit_code == st.service_specific_exit_code
    &&& e.check_point == st.check_point
    &&& e.wait_hint == st.wait_hint
    &&& e.process_id == st.process_id
    &&& e.service_flags == st.service_flags
}

/// Reads the string a record's pointer names.
fn decode_wide_cstr(b: &[u8], base: usize, p: u64) -> (s: String)
    requires
        pointer_in_buffer(b@, base as int, p as int),
        base + b@.len() <= u64::MAX,
    ensures
        s@ == string_at(b@, base as int, p as int),
{
    if p == 0 {
        return String::new();
    }
    let off = (p - base as u64) as usize;
    let rest = crate::wide::slice_range(b, off, b.len());
    let units = crate::wide::le_bytes_to_units(rest);
    crate::wide::from_wide(units.as_slice())
}

/// Reads the first `count` records of an enumeration buffer that starts at
/// address `base` (the strings the records point to live in the same
/// buffer).
pub fn parse_service_records(b: &[u8], base: usize, count: u32) -> (v: Vec<ServiceStatusEntry>)
    requires
        base + b@.len() <= u64::MAX,
        forall|i: int| 0 <= i < count ==> record_readable(b@, base as int, i),
    ensures
        v@.len() == count,
        forall|i: int| 0 <= i < count ==> entry_matches(#[trigger] v@[i], b@, base as int, i),
        forall|i: int|
            0 <= i < count ==> {
                let e = #[trigger] v@[i];
                &&& e.service_type == le_u32_at(b@, i * 56 + 16)
                &&& e.current_state == le_u32_at(b@, i * 56 + 20)
                &&& e.controls_accepted == le_u32_at(b@, i * 56 + 24)
                &&& e.win32_exit_code == le_u32_at(b@, i * 56 + 28)
                &&& e.service_specific_exit_code == le_u32_at(b@, i * 56 + 32)
                &&& e.check_point == le_u32_at(b@, i * 56 + 36)
                &&& e.wait_hint == le_u32_at(b@, i * 56 + 40)
                &&& e.process_id == le_u32_at(b@, i * 56 + 44)
                &&& e.service_flags == le_u32_at(b@, i * 56 + 48)
            },
{
    let n = b.len();
    let mut v: Vec<ServiceStatusEntry> = Vec::new();
    let mut i: u32 = 0;
    while i < count
        invariant
            n == b@.len(),
            i <= count,
            base + b@.len() <= u64::MAX,
            forall|k: int| 0 <= k < count ==> record_readable(b@, base as int, k),
            v@.len() == i,
            forall|k: int| 0 <= k < i ==> entry_matches(#[trigger] v@[k], b@, base as int, k),
        decreases count - i,
    {
        assert(record_readable(b@, base as int, i as int));
        assert((i + 1) * 56 <= n);
        let off = (i as usize) * ENUM_RECORD_LEN;
        let name_ptr = crate::bytes::read_le_u64(b, off);
        let display_ptr = crate::bytes::read_le_u64(b, off + 8);
        let st = read_status(b, off + ENUM_STATUS_OFFSET);
        let e = ServiceStatusEntry {
            service_name: decode_wide_cstr(b, base, name_ptr),
            display_name: decode_wide_cstr(b, base, display_ptr),
            service_type: st.service_type,
            current_state: st.current_state,
            controls_accepted: st.controls_accepted,
            win32_exit_code: st.win32_exit_code,
            service_specific_exit_code: st.service_specific_exit_code,
            check_point: st.check_point,
            wait_hint: st.wait_hint,
            process_id: st.process_id,
            service_flags: st.service_flags,
        };
        v.push(e);
        i = i + 1;
    }
    v
}

/// Whether [`parse_service_records`] can read the first `count` records of
/// a buffer that starts at address `base`: the buffer's addresses fit in 64
/// bits, and each record lies in the buffer with both string pointers null
/// or inside it.
pub fn service_records_readable(b: &[u8], base: usize, count: u32) -> (ok: bool)
    ensures
        ok == (base + b@.len() <= u64::MAX && forall|i: int|
            0 <= i < count ==> record_readable(b@, base as int, i)),
{
    let n = b.len();
    let start = base as u64;
    let end = match start.checked_add(n as u64) {
        Some(e) => e,
        None => return false,
    };
    let mut i: u32 = 0;
    while i < count
        invariant
            n == b@.len(),
            start == base,
            end == base + n,
            i <= count,
            forall|k: int| 0 <= k < i ==> record_readable(b@, base as int, k),
        decreases count - i,
    {
        let off = (i as u64) * 56;
        if off + 56 > n as u64 {
            assert(!record_readable(b@, base as int, i as int));
            return false;
        }
        let name_ptr = crate::bytes::read_le_u64(b, off as usize);
        let display_ptr = crate::bytes::read_le_u64(b, off as usize + 8);
        let name_ok = name_ptr == 0 || (start <= name_ptr && name_ptr <= end);
        let display_ok = display_ptr == 0 || (start <= display_ptr && display_ptr <= end);
        if !(name_ok && display_ok) {
            assert(!record_readable(b@, base as int, i as int));
            return false;
        }
        i = i + 1;
    }
    true
}

/// What one enumeration call calls for next.
#[derive(Debug, Clone, Copy, PartialEq, Eq, Structural)]
pub enum EnumStep {
    /// Give up with this error.
    Fail(Win32Error),
    /// Nothing fitted: call again with a buffer of this many bytes.
    Grow(u32),
    /// Read this many records from the buffer; `last` when the enumeration
    /// is complete, else call again for the rest.
    Records { count: u32, last: bool },
}

/// Decides what an enumeration call that returned `ok` (with last error
/// `err`, `services_returned` records, and `bytes_needed`) over a buffer of
/// `buf_len` bytes calls for: success is the last page; a failure other
/// than `ERROR_MORE_DATA` is final; `ERROR_MORE_DATA` with records is a
/// page and more to come; with none, the buffer grows to what the call
/// asked for, or double its size if that is more.
pub fn enum_services_step(ok: bool, err: Win32Error, services_returned: u32, bytes_needed: u32, buf_len: u32) -> (s:
    EnumStep)
    requires
        !ok && err@ == 234 && services_returned == 0 ==> buf_len <= u32::MAX / 2,
    ensures
        ok ==> s == (EnumStep::Records { count: services_returned, last: true }),
        !ok && err@ != 234 ==> s == EnumStep::Fail(err),
        !ok && err@ == 234 && services_returned > 0 ==> s == (EnumStep::Records {
            count: services_returned,
            last: false,
        }),
        !ok && err@ == 234 && services_returned == 0 ==> s == EnumStep::Grow(
            if bytes_needed >= 2 * buf_len {
                bytes_needed
            } else {
                (2 * buf_len) as u32
            },
        ),
{
    if ok {
        EnumStep::Records { count: services_returned, last: true }
    } else if err.code() != 234 {
        EnumStep::Fail(err)
    } else if services_returned == 0 {
        let doubled = buf_len * 2;
        EnumStep::Grow(
            if bytes_needed >= doubled {
                bytes_needed
            } else {
                doubled
            },
        )
    } else {
        EnumStep::Records { count: services_returned, last: false }
    }
}

} // verus!
