//! Processes and threads: creation flags, wait outcomes, snapshot entries,
//! CPU-topology entries, CPU-time accounting, and the rules that read the
//! variable-size answers of the process and environment queries.
//!
//! A handle is carried here as the integer value of the `HANDLE`.

use vstd::prelude::*;

use crate::error::Win32Error;
use crate::time::{FileTime, Timespec};

verus! {

/// `CREATE_SUSPENDED`.
pub const CREATE_SUSPENDED: u32 = 0x0000_0004;

/// `CREATE_NEW_PROCESS_GROUP`.
pub const CREATE_NEW_PROCESS_GROUP: u32 = 0x0000_0200;

/// `CREATE_UNICODE_ENVIRONMENT`.
pub const CREATE_UNICODE_ENVIRONMENT: u32 = 0x0000_0400;

/// `THREAD_SUSPEND_RESUME`: the access right suspending or resuming a
/// thread needs.
pub const THREAD_SUSPEND_RESUME: u32 = 0x0002;

/// `THREAD_QUERY_INFORMATION`: the access right reading a thread's times
/// needs.
pub const THREAD_QUERY_INFORMATION: u32 = 0x0040;

/// `PROCESS_TERMINATE`.
pub const PROCESS_TERMINATE: u32 = 0x0001;

/// `SYNCHRONIZE`: the access right waiting on a handle needs.
pub const SYNCHRONIZE: u32 = 0x0010_0000;

/// `PROCESS_QUERY_LIMITED_INFORMATION`.
pub const PROCESS_QUERY_LIMITED_INFORMATION: u32 = 0x1000;

/// `WaitForMultipleObjects`' limit on how many handles one wait takes.
pub const MAXIMUM_WAIT_OBJECTS: usize = 64;

/// `STILL_ACTIVE`: the exit code of a thread or process that has not
/// exited.
pub const STILL_ACTIVE: u32 = 259;

/// An exception handler's return value: resume where the exception occurred.
pub const EXCEPTION_CONTINUE_EXECUTION: i32 = -1;

/// An exception handler's return value: pass the exception on.
pub const EXCEPTION_CONTINUE_SEARCH: i32 = 0;

/// A top-level filter's return value: run the default unhandled-exception
/// handling.
pub const EXCEPTION_EXECUTE_HANDLER: i32 = 1;

/// `SEM_FAILCRITICALERRORS`.
pub const SEM_FAILCRITICALERRORS: u32 = 0x0001;

/// `SEM_NOOPENFILEERRORBOX`.
pub const SEM_NOOPENFILEERRORBOX: u32 = 0x8000;

/// `IDLE_PRIORITY_CLASS`.
pub const IDLE_PRIORITY_CLASS: u32 = 0x0000_0040;

/// `BELOW_NORMAL_PRIORITY_CLASS`.
pub const BELOW_NORMAL_PRIORITY_CLASS: u32 = 0x0000_4000;

/// `NORMAL_PRIORITY_CLASS`.
pub const NORMAL_PRIORITY_CLASS: u32 = 0x0000_0020;

/// `ABOVE_NORMAL_PRIORITY_CLASS`.
pub const ABOVE_NORMAL_PRIORITY_CLASS: u32 = 0x0000_8000;

/// `HIGH_PRIORITY_CLASS`.
pub const HIGH_PRIORITY_CLASS: u32 = 0x0000_0080;

/// `REALTIME_PRIORITY_CLASS`.
pub const REALTIME_PRIORITY_CLASS: u32 = 0x0000_0100;

/// The size of the environment query's first buffer, in UTF-16 units.
pub const ENV_VAR_INITIAL_UNITS: usize = 256;

/// The size of the image-path query's first buffer, in UTF-16 units.
pub const IMAGE_PATH_INITIAL_UNITS: usize = 260;

/// How many times the image-path query is tried, doubling its buffer.
pub const IMAGE_PATH_ATTEMPTS: u32 = 8;

/// How many times the computer-name query is tried.
pub const COMPUTER_NAME_ATTEMPTS: u32 = 2;

/// The size of one `SYSTEM_LOGICAL_PROCESSOR_INFORMATION` record, in bytes.
pub const LOGICAL_PROCESSOR_RECORD_BYTES: u32 = 32;

/// A process started suspended, its main thread not yet resumed.
#[derive(Debug, Clone, Copy, PartialEq, Eq, Structural)]
pub struct SpawnedProcess {
    pub process: usize,
    pub thread: usize,
    pub process_id: u32,
    pub thread_id: u32,
}

/// The `dwCreationFlags` a suspended spawn is made with:
/// `CREATE_SUSPENDED`, plus `CREATE_UNICODE_ENVIRONMENT` when an
/// environment block is passed and `CREATE_NEW_PROCESS_GROUP` when the
/// child gets a process group of its own.
pub fn creation_flags(has_environment: bool, new_process_group: bool) -> (f: u32)
    ensures
        f == CREATE_SUSPENDED + (if has_environment {
            CREATE_UNICODE_ENVIRONMENT
        } else {
            0
        }) + (if new_process_group {
            CREATE_NEW_PROCESS_GROUP
        } else {
            0
        }),
{
    let mut flags = CREATE_SUSPENDED;
    if has_environment {
        assert(CREATE_SUSPENDED | CREATE_UNICODE_ENVIRONMENT == 0x404u32) by (bit_vector);
        flags = flags | CREATE_UNICODE_ENVIRONMENT;
    }
    if new_process_group {
        assert(0x4u32 | CREATE_NEW_PROCESS_GROUP == 0x204u32) by (bit_vector);
        assert(0x404u32 | CREATE_NEW_PROCESS_GROUP == 0x604u32) by (bit_vector);
        flags = flags | CREATE_NEW_PROCESS_GROUP;
    }
    flags
}

/// What a wait on one process returned.
#[derive(Debug, Clone, Copy, PartialEq, Eq, Structural)]
pub enum ProcessWait {
    /// The process exited: its exit code is to be read.
    Exited,
    /// The timeout elapsed first.
    TimedOut,
    /// The wait failed: the error is the thread's last error.
    Failed,
}

/// Reads `WaitForSingleObject`'s return code for a process handle.
pub fn process_wait_outcome(result: u32) -> (w: ProcessWait)
    ensures
        result == 0 ==> w == ProcessWait::Exited,
        result == 258 ==> w == ProcessWait::TimedOut,
        result != 0 && result != 258 ==> w == ProcessWait::Failed,
{
    if result == crate::handle::WAIT_OBJECT_0 {
        ProcessWait::Exited
    } else if result == crate::handle::WAIT_TIMEOUT {
        ProcessWait::TimedOut
    } else {
        ProcessWait::Failed
    }
}

/// What a wait on several processes returned.
#[derive(Debug, Clone, Copy, PartialEq, Eq, Structural)]
pub enum WaitAny {
    /// The timeout elapsed first.
    TimedOut,
    /// The wait failed: the error is the thread's last error.
    Failed,
    /// The process at this index exited first: its exit code is to be read.
    Exited(usize),
    /// A code no process wait gives (the abandoned range), reported as an
    /// error with that code.
    Unexpected(Win32Error),
}

/// Reads `WaitForMultipleObjects`' return code for a wait on `count`
/// process handles.
pub fn wait_any_outcome(result: u32, count: usize) -> (w: WaitAny)
    ensures
        result == 258 ==> w == WaitAny::TimedOut,
        result == 0xFFFF_FFFF ==> w == WaitAny::Failed,
        result != 258 && result != 0xFFFF_FFFF && result < count ==> w == WaitAny::Exited(
            result as usize,
        ),
        result != 258 && result != 0xFFFF_FFFF && result >= count ==> (w matches WaitAny::Unexpected(
            e,
        ) && e@ == result),
{
    if result == crate::handle::WAIT_TIMEOUT {
        WaitAny::TimedOut
    } else if result == crate::handle::WAIT_FAILED {
        WaitAny::Failed
    } else if (result as usize) < count {
        WaitAny::Exited(result as usize)
    } else {
        WaitAny::Unexpected(Win32Error::from_raw(result))
    }
}

/// The thread ids of `entries` (`(thread id, owner process id)` pairs, in
/// snapshot order) that belong to process `pid`, in order.
pub open spec fn owned_thread_ids(entries: Seq<(u32, u32)>, pid: u32) -> Seq<u32>
    decreases entries.len(),
{
    if entries.len() == 0 {
        Seq::empty()
    } else {
        let rest = owned_thread_ids(entries.drop_last(), pid);
        if entries.last().1 == pid {
            rest.push(entries.last().0)
        } else {
            rest
        }
    }
}

/// An empty snapshot owns no threads; one more entry at the end of a
/// snapshot adds its thread id at the end of the list when it belongs to
/// `pid`, and changes nothing when it does not.
pub proof fn lemma_owned_threads_extend(entries: Seq<(u32, u32)>, tid: u32, owner: u32, pid: u32)
    ensures
        owned_thread_ids(Seq::empty(), pid) == Seq::<u32>::empty(),
        owner == pid ==> owned_thread_ids(entries.push((tid, owner)), pid) == owned_thread_ids(
            entries,
            pid,
        ).push(tid),
        owner != pid ==> owned_thread_ids(entries.push((tid, owner)), pid) == owned_thread_ids(
            entries,
            pid,
        ),
{
    assert(entries.push((tid, owner)).drop_last() =~= entries);
}

/// Every entry of the snapshot is looked at: the thread of each entry that
/// belongs to `pid` is in the list, and every id in the list is the thread
/// of such an entry; the list is never longer than the snapshot.
pub proof fn lemma_owned_threads_members(entries: Seq<(u32, u32)>, pid: u32)
    ensures
        forall|i: int|
            0 <= i < entries.len() && (#[trigger] entries[i]).1 == pid ==> owned_thread_ids(
                entries,
                pid,
            ).contains(entries[i].0),
        forall|k: int|
            0 <= k < owned_thread_ids(entries, pid).len() ==> exists|i: int|
                0 <= i < entries.len() && #[trigger] entries[i] == (
                    #[trigger] owned_thread_ids(entries, pid)[k],
                    pid,
                ),
        owned_thread_ids(entries, pid).len() <= entries.len(),
    decreases entries.len(),
{
    if entries.len() > 0 {
        let init = entries.drop_last();
        lemma_owned_threads_members(init, pid);
        let rest = owned_thread_ids(init, pid);
        let r = owned_thread_ids(entries, pid);
        assert forall|i: int| 0 <= i < entries.len() && (#[trigger] entries[i]).1 == pid implies r.contains(
            entries[i].0,
        ) by {
            if i < entries.len() - 1 {
                assert(init[i] == entries[i]);
                let j = choose|j: int| 0 <= j < rest.len() && rest[j] == init[i].0;
                assert(r[j] == rest[j]);
            } else {
                assert(r[r.len() - 1] == entries[i].0);
            }
        }
        assert forall|k: int| 0 <= k < r.len() implies exists|i: int|
            0 <= i < entries.len() && #[trigger] entries[i] == (#[trigger] r[k], pid) by {
            if k < rest.len() {
                assert(r[k] == rest[k]);
                let i = choose|i: int| 0 <= i < init.len() && #[trigger] init[i] == (rest[k], pid);
                assert(entries[i] == init[i]);
            } else {
                let i = entries.len() - 1;
                assert(entries[i] == (r[k], pid));
            }
        }
    }
}

/// Keeps the thread ids of a thread snapshot that belong to process `pid`.
pub fn threads_owned_by(entries: &[(u32, u32)], pid: u32) -> (ids: Vec<u32>)
    ensures
        ids@ == owned_thread_ids(entries@, pid),
        forall|i: int|
            0 <= i < entries@.len() && (#[trigger] entries@[i]).1 == pid ==> ids@.contains(
                entries@[i].0,
            ),
        forall|k: int|
            0 <= k < ids@.len() ==> exists|i: int|
                0 <= i < entries@.len() && #[trigger] entries@[i] == (#[trigger] ids@[k], pid),
{
    proof {
        lemma_owned_threads_members(entries@, pid);
    }
    let mut ids: Vec<u32> = Vec::new();
    let mut i: usize = 0;
    while i < entries.len()
        invariant
            i <= entries@.len(),
            ids@ == owned_thread_ids(entries@.take(i as int), pid),
        decreases entries@.len() - i,
    {
        let (tid, owner) = entries[i];
        proof {
            assert(entries@.take(i + 1).drop_last() =~= entries@.take(i as int));
        }
        if owner == pid {
            ids.push(tid);
        }
        i = i + 1;
    }
    proof {
        assert(entries@.take(entries@.len() as int) =~= entries@);
    }
    ids
}

/// One process of a system snapshot.
#[derive(Debug, Clone, PartialEq, Eq)]
pub struct ProcessEntry {
    pub pid: u32,
    pub parent_pid: u32,
    pub thread_count: u32,
    /// The executable's file name (not a full path).
    pub exe_file: String,
}

impl ProcessEntry {
    /// The entry a process-snapshot record describes: its ids, thread
    /// count and executable name (read up to its first NUL).
    pub fn from_snapshot(pid: u32, parent_pid: u32, thread_count: u32, exe_file: &[u16; 260]) -> (e:
        ProcessEntry)
        ensures
            e.pid == pid,
            e.parent_pid == parent_pid,
            e.thread_count == thread_count,
            e.exe_file@ == crate::wide::decode_until_nul(exe_file@),
    {
        ProcessEntry { pid, parent_pid, thread_count, exe_file: decode_exe_file(exe_file) }
    }
}

/// Decodes a `PROCESSENTRY32W::szExeFile` buffer up to its first NUL (the
/// whole buffer when it has none).
pub fn decode_exe_file(units: &[u16; 260]) -> (s: String)
    ensures
        s@ == crate::wide::decode_until_nul(units@),
{
    crate::wide::from_wide(units.as_slice())
}

/// The kind of CPU-topology relationship a logical-processor entry
/// describes.
#[derive(Debug, Clone, Copy, PartialEq, Eq, Structural)]
pub enum ProcessorRelationship {
    ProcessorCore,
    NumaNode,
    Cache,
    ProcessorPackage,
    /// A kind this library does not name, with its raw value.
    Unknown(u32),
}

impl ProcessorRelationship {
    /// The relationship a raw `Relationship` field names.
    pub fn from_raw(raw: u32) -> (r: ProcessorRelationship)
        ensures
            r == (if raw == 0 {
                ProcessorRelationship::ProcessorCore
            } else if raw == 1 {
                ProcessorRelationship::NumaNode
            } else if raw == 2 {
                ProcessorRelationship::Cache
            } else if raw == 3 {
                ProcessorRelationship::ProcessorPackage
            } else {
                ProcessorRelationship::Unknown(raw)
            }),
    {
        match raw {
            0 => ProcessorRelationship::ProcessorCore,
            1 => ProcessorRelationship::NumaNode,
            2 => ProcessorRelationship::Cache,
            3 => ProcessorRelationship::ProcessorPackage,
            other => ProcessorRelationship::Unknown(other),
        }
    }
}

/// A set of logical processors sharing one topology relationship.
#[derive(Debug, Clone, Copy, PartialEq, Eq, Structural)]
pub struct LogicalProcessorInformation {
    /// Bit N set: logical processor N is covered.
    pub processor_mask: usize,
    pub relationship: ProcessorRelationship,
}

/// How many whole records a logical-processor buffer of `return_length`
/// bytes holds.
pub fn logical_processor_record_count(return_length: u32) -> (n: usize)
    ensures
        n == return_length / LOGICAL_PROCESSOR_RECORD_BYTES,
{
    (return_length / LOGICAL_PROCESSOR_RECORD_BYTES) as usize
}

/// The entries the raw `(ProcessorMask, Relationship)` fields of the
/// records describe, in order.
pub fn logical_processor_entries(raw: &[(usize, u32)]) -> (v: Vec<LogicalProcessorInformation>)
    ensures
        v@.len() == raw@.len(),
        forall|i: int|
            0 <= i < raw@.len() ==> v@[i].processor_mask == raw@[i].0 && (v@[i].relationship
                == (if raw@[i].1 == 0 {
                ProcessorRelationship::ProcessorCore
            } else if raw@[i].1 == 1 {
                ProcessorRelationship::NumaNode
            } else if raw@[i].1 == 2 {
                ProcessorRelationship::Cache
            } else if raw@[i].1 == 3 {
                ProcessorRelationship::ProcessorPackage
            } else {
                ProcessorRelationship::Unknown(raw@[i].1)
            })),
{
    let mut v: Vec<LogicalProcessorInformation> = Vec::new();
    let mut i: usize = 0;
    while i < raw.len()
        invariant
            i <= raw@.len(),
            v@.len() == i,
            forall|j: int|
                0 <= j < i ==> v@[j].processor_mask == raw@[j].0 && (v@[j].relationship == (if raw@[j].1
                    == 0 {
                    ProcessorRelationship::ProcessorCore
                } else if raw@[j].1 == 1 {
                    ProcessorRelationship::NumaNode
                } else if raw@[j].1 == 2 {
                    ProcessorRelationship::Cache
                } else if raw@[j].1 == 3 {
                    ProcessorRelationship::ProcessorPackage
                } else {
                    ProcessorRelationship::Unknown(raw@[j].1)
                })),
        decreases raw@.len() - i,
    {
        let (mask, rel) = raw[i];
        v.push(
            LogicalProcessorInformation {
                processor_mask: mask,
                relationship: ProcessorRelationship::from_raw(rel),
            },
        );
        i = i + 1;
    }
    v
}

/// A process's creation and exit instants and its kernel- and user-mode
/// CPU time.
#[derive(Debug, Clone, Copy, PartialEq, Eq, Structural)]
pub struct ProcessTimes {
    /// When the process was created (wall clock).
    pub creation: Timespec,
    /// When the process exited (wall clock; the epoch-relative value of a
    /// zero `FILETIME` while it still runs).
    pub exit: Timespec,
    /// CPU time spent in kernel mode (a duration).
    pub kernel_time: Timespec,
    /// CPU time spent in user mode (a duration).
    pub user_time: Timespec,
}

/// A thread's creation and exit instants and its kernel- and user-mode CPU
/// time.
#[derive(Debug, Clone, Copy, PartialEq, Eq, Structural)]
pub struct ThreadTimes {
    pub creation: Timespec,
    pub exit: Timespec,
    pub kernel_time: Timespec,
    pub user_time: Timespec,
}

/// The `FILETIME`s a wall-clock conversion takes without overflow.
pub open spec fn instant_in_range(ft: FileTime) -> bool {
    crate::time::filetime_ticks(ft) - crate::time::FILETIME_UNIX_EPOCH_DIFF_100NS >= i64::MIN
}

/// Whether `ft` converts to a wall-clock instant without overflow.
pub fn instant_check(ft: FileTime) -> (b: bool)
    ensures
        b == instant_in_range(ft),
{
    let raw: u64 = (ft.high as u64) * 0x1_0000_0000 + ft.low as u64;
    raw < 0x8000_0000_0000_0000 || raw >= 0x819D_B1DE_D53E_8000
}

impl ProcessTimes {
    /// The times `GetProcessTimes` reported as four `FILETIME`s: two
    /// instants and two durations.
    pub fn from_filetimes(creation: FileTime, exit: FileTime, kernel: FileTime, user: FileTime) -> (t:
        ProcessTimes)
        requires
            instant_in_range(creation),
            instant_in_range(exit),
        ensures
            t.creation == crate::time::spec_filetime_to_timespec(creation),
            t.exit == crate::time::spec_filetime_to_timespec(exit),
            t.kernel_time == crate::time::spec_ticks_to_duration(
                crate::time::filetime_ticks(kernel),
            ),
            t.user_time == crate::time::spec_ticks_to_duration(crate::time::filetime_ticks(user)),
    {
        ProcessTimes {
            creation: crate::time::filetime_to_timespec(creation),
            exit: crate::time::filetime_to_timespec(exit),
            kernel_time: crate::time::filetime_to_duration(kernel),
            user_time: crate::time::filetime_to_duration(user),
        }
    }
}

impl ThreadTimes {
    /// The times `GetThreadTimes` reported as four `FILETIME`s: two
    /// instants and two durations.
    pub fn from_filetimes(creation: FileTime, exit: FileTime, kernel: FileTime, user: FileTime) -> (t:
        ThreadTimes)
        requires
            instant_in_range(creation),
            instant_in_range(exit),
        ensures
            t.creation == crate::time::spec_filetime_to_timespec(creation),
            t.exit == crate::time::spec_filetime_to_timespec(exit),
            t.kernel_time == crate::time::spec_ticks_to_duration(
                crate::time::filetime_ticks(kernel),
            ),
            t.user_time == crate::time::spec_ticks_to_duration(crate::time::filetime_ticks(user)),
    {
        ThreadTimes {
            creation: crate::time::filetime_to_timespec(creation),
            exit: crate::time::filetime_to_timespec(exit),
            kernel_time: crate::time::filetime_to_duration(kernel),
            user_time: crate::time::filetime_to_duration(user),
        }
    }
}

/// System-wide memory totals and load, in bytes (`memory_load` in percent).
#[derive(Debug, Clone, Copy, PartialEq, Eq, Structural)]
pub struct MemoryStatus {
    pub memory_load: u32,
    pub total_phys: u64,
    pub avail_phys: u64,
    pub total_page_file: u64,
    pub avail_page_file: u64,
    pub total_virtual: u64,
    pub avail_virtual: u64,
}

/// The result of an environment-variable read whose call reported 0, given
/// the thread's last error: `ERROR_ENVIRONMENT_VARIABLE_NOT_FOUND` is an
/// unset variable, success is a set but empty one, any other error is
/// itself.
pub fn env_var_failure(err: Win32Error) -> (r: Result<Option<String>, Win32Error>)
    ensures
        err@ == 203 ==> r == Ok::<Option<String>, Win32Error>(None),
        err@ == 0 ==> (r matches Ok(Some(s)) && s@ == Seq::<char>::empty()),
        err@ != 203 && err@ != 0 ==> r == Err::<Option<String>, Win32Error>(err),
{
    let code = err.code();
    if code == 203 {
        Ok(None)
    } else if code == 0 {
        Ok(Some(String::new()))
    } else {
        Err(err)
    }
}

/// What a failed attempt of a retrying query does next.
#[derive(Debug, Clone, Copy, PartialEq, Eq, Structural)]
pub enum Retry {
    /// Try again with a buffer of this many units.
    Grow(usize),
    /// Give up with this error.
    Fail(Win32Error),
}

/// The next step after attempt `attempt` (from 0) of a query tried at most
/// `attempts` times failed with `err`: an error other than `grow_on` is
/// final; `grow_on` retries with a buffer of `next_len` units unless that
/// was the last attempt, which fails with `ERROR_INSUFFICIENT_BUFFER`.
pub fn retry_after_failure(attempt: u32, attempts: u32, err: Win32Error, grow_on: u32, next_len: usize) -> (r:
    Retry)
    requires
        attempt < attempts,
    ensures
        err@ != grow_on ==> r == Retry::Fail(err),
        err@ == grow_on && attempt + 1 < attempts ==> r == Retry::Grow(next_len),
        err@ == grow_on && attempt + 1 >= attempts ==> (r matches Retry::Fail(e) && e@ == 122),
{
    if err.code() != grow_on {
        Retry::Fail(err)
    } else if attempt + 1 < attempts {
        Retry::Grow(next_len)
    } else {
        Retry::Fail(Win32Error::ERROR_INSUFFICIENT_BUFFER())
    }
}

/// The next step after attempt `attempt` of the image-path query failed
/// with `err` over a buffer of `buf_len` units: only
/// `ERROR_INSUFFICIENT_BUFFER` retries, with a buffer twice the size.
pub fn image_path_retry(attempt: u32, buf_len: usize, err: Win32Error) -> (r: Retry)
    requires
        attempt < IMAGE_PATH_ATTEMPTS,
        err@ == 122 ==> buf_len <= usize::MAX / 2,
    ensures
        err@ != 122 ==> r == Retry::Fail(err),
        err@ == 122 && attempt + 1 < IMAGE_PATH_ATTEMPTS ==> r == Retry::Grow((2 * buf_len) as usize),
        err@ == 122 && attempt + 1 >= IMAGE_PATH_ATTEMPTS ==> (r matches Retry::Fail(e) && e@ == 122),
{
    if err.code() != 122 {
        return Retry::Fail(err);
    }
    retry_after_failure(attempt, IMAGE_PATH_ATTEMPTS, err, 122, buf_len * 2)
}

/// The next step after attempt `attempt` of the computer-name query failed
/// with `err`, when the call asked for `size` units: only
/// `ERROR_BUFFER_OVERFLOW` retries, with a buffer of that size.
pub fn computer_name_retry(attempt: u32, size: u32, err: Win32Error) -> (r: Retry)
    requires
        attempt < COMPUTER_NAME_ATTEMPTS,
    ensures
        err@ != 111 ==> r == Retry::Fail(err),
        err@ == 111 && attempt + 1 < COMPUTER_NAME_ATTEMPTS ==> r == Retry::Grow(size as usize),
        err@ == 111 && attempt + 1 >= COMPUTER_NAME_ATTEMPTS ==> (r matches Retry::Fail(e) && e@
            == 122),
{
    retry_after_failure(attempt, COMPUTER_NAME_ATTEMPTS, err, 111, size as usize)
}

} // verus!
