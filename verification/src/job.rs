//! Job Objects: the resource limits a job's extended-limit block carries,
//! its process-id list, its accounting totals, and the lifecycle messages
//! its completion port delivers.

use vstd::prelude::*;

use crate::bytes::le_u32_at;
use crate::error::Win32Error;
use crate::time::{Timespec, duration_fits, spec_duration_to_ticks, spec_ticks_to_duration};

verus! {

/// `JOB_OBJECT_LIMIT_KILL_ON_JOB_CLOSE`.
pub const JOB_OBJECT_LIMIT_KILL_ON_JOB_CLOSE: u32 = 0x0000_2000;

/// `JOB_OBJECT_LIMIT_PROCESS_TIME`.
pub const JOB_OBJECT_LIMIT_PROCESS_TIME: u32 = 0x0000_0002;

/// `JOB_OBJECT_LIMIT_JOB_TIME`.
pub const JOB_OBJECT_LIMIT_JOB_TIME: u32 = 0x0000_0004;

/// `JOB_OBJECT_LIMIT_ACTIVE_PROCESS`.
pub const JOB_OBJECT_LIMIT_ACTIVE_PROCESS: u32 = 0x0000_0008;

/// `JOB_OBJECT_LIMIT_PROCESS_MEMORY`.
pub const JOB_OBJECT_LIMIT_PROCESS_MEMORY: u32 = 0x0000_0100;

/// `JOB_OBJECT_LIMIT_JOB_MEMORY`.
pub const JOB_OBJECT_LIMIT_JOB_MEMORY: u32 = 0x0000_0200;

/// `JobObjectExtendedLimitInformation`.
pub const JOB_OBJECT_EXTENDED_LIMIT_INFORMATION_CLASS: u32 = 9;

/// `JobObjectBasicProcessIdList`.
pub const JOB_OBJECT_BASIC_PROCESS_ID_LIST_CLASS: u32 = 3;

/// `JobObjectAssociateCompletionPortInformation`.
pub const JOB_OBJECT_ASSOCIATE_COMPLETION_PORT_CLASS: u32 = 7;

/// `JobObjectBasicAndIoAccountingInformation`.
pub const JOB_OBJECT_BASIC_AND_IO_ACCOUNTING_INFORMATION_CLASS: u32 = 8;

/// `JOB_OBJECT_ALL_ACCESS`.
pub const JOB_OBJECT_ALL_ACCESS: u32 = 0x001F_003F;

/// A process joined the job.
pub const JOB_OBJECT_MSG_NEW_PROCESS: u32 = 6;

/// A process of the job exited.
pub const JOB_OBJECT_MSG_EXIT_PROCESS: u32 = 7;

/// A process of the job exited abnormally.
pub const JOB_OBJECT_MSG_ABNORMAL_EXIT_PROCESS: u32 = 8;

/// The job has no active process left.
pub const JOB_OBJECT_MSG_ACTIVE_PROCESS_ZERO: u32 = 4;

/// The job's user-time limit was reached.
pub const JOB_OBJECT_MSG_END_OF_JOB_TIME: u32 = 1;

/// A process's user-time limit was reached.
pub const JOB_OBJECT_MSG_END_OF_PROCESS_TIME: u32 = 2;

/// The job's active-process limit was exceeded.
pub const JOB_OBJECT_MSG_ACTIVE_PROCESS_LIMIT: u32 = 3;

/// A process's memory limit was exceeded.
pub const JOB_OBJECT_MSG_PROCESS_MEMORY_LIMIT: u32 = 9;

/// The job's memory limit was exceeded.
pub const JOB_OBJECT_MSG_JOB_MEMORY_LIMIT: u32 = 10;

/// The byte length of the process-id list's header
/// (`NumberOfAssignedProcesses`, `NumberOfProcessIdsInList`).
pub const PROCESS_ID_LIST_HEADER_LEN: usize = 8;

/// The byte length of one process-id list entry (a `ULONG_PTR`).
pub const PROCESS_ID_ENTRY_LEN: usize = 8;

/// The process-id list's first capacity, in entries.
pub const PROCESS_ID_INITIAL_CAPACITY: u32 = 32;

/// Resource limits a job can enforce; `None` leaves a limit unset.
#[derive(Debug, Clone, Copy, Default, PartialEq, Eq, Structural)]
pub struct JobLimits {
    /// How many processes may be active in the job at once.
    pub active_process_limit: Option<u32>,
    /// Committed-memory limit of each process, in bytes.
    pub process_memory_limit: Option<usize>,
    /// Committed-memory limit of the whole job, in bytes.
    pub job_memory_limit: Option<usize>,
    /// User-mode CPU time limit of each process.
    pub per_process_user_time_limit: Option<Timespec>,
    /// User-mode CPU time limit of the job as a whole.
    pub per_job_user_time_limit: Option<Timespec>,
}

/// The fields of `JOBOBJECT_EXTENDED_LIMIT_INFORMATION` that carry limits
/// (every other field of the block is zero when it is written).
#[derive(Debug, Clone, Copy, Default, PartialEq, Eq, Structural)]
pub struct LimitBlock {
    pub limit_flags: u32,
    /// 100ns ticks.
    pub per_process_user_time_limit: i64,
    /// 100ns ticks.
    pub per_job_user_time_limit: i64,
    pub active_process_limit: u32,
    pub process_memory_limit: usize,
    pub job_memory_limit: usize,
}

/// `bit` when `on`, else 0.
pub open spec fn flag_if(on: bool, bit: u32) -> u32 {
    if on {
        bit
    } else {
        0
    }
}

/// The `LimitFlags` a set of limits is written with: one bit per limit
/// that is set.
pub open spec fn limit_flags_of(l: JobLimits) -> u32 {
    flag_if(l.active_process_limit is Some, JOB_OBJECT_LIMIT_ACTIVE_PROCESS) | flag_if(
        l.per_process_user_time_limit is Some,
        JOB_OBJECT_LIMIT_PROCESS_TIME,
    ) | flag_if(l.per_job_user_time_limit is Some, JOB_OBJECT_LIMIT_JOB_TIME) | flag_if(
        l.process_memory_limit is Some,
        JOB_OBJECT_LIMIT_PROCESS_MEMORY,
    ) | flag_if(l.job_memory_limit is Some, JOB_OBJECT_LIMIT_JOB_MEMORY)
}

/// The tick count a time limit is written as (0 when unset).
pub open spec fn limit_ticks(t: Option<Timespec>) -> i64 {
    match t {
        Some(d) => spec_duration_to_ticks(d) as i64,
        None => 0,
    }
}

/// Both time limits of `l`, where set, convert to ticks without overflow.
pub open spec fn limits_fit(l: JobLimits) -> bool {
    &&& (l.per_process_user_time_limit matches Some(t) ==> duration_fits(t))
    &&& (l.per_job_user_time_limit matches Some(t) ==> duration_fits(t))
}

/// Whether both time limits of `l`, where set, convert to ticks without
/// overflow.
pub fn limits_fit_check(l: &JobLimits) -> (b: bool)
    ensures
        b == limits_fit(*l),
{
    let p = match l.per_process_user_time_limit {
        Some(t) => crate::time::duration_fits_check(t),
        None => true,
    };
    let j = match l.per_job_user_time_limit {
        Some(t) => crate::time::duration_fits_check(t),
        None => true,
    };
    p && j
}

/// The limit block that sets exactly the limits of `l`.
pub open spec fn spec_encode_limits(l: JobLimits) -> LimitBlock {
    LimitBlock {
        limit_flags: limit_flags_of(l),
        per_process_user_time_limit: limit_ticks(l.per_process_user_time_limit),
        per_job_user_time_limit: limit_ticks(l.per_job_user_time_limit),
        active_process_limit: match l.active_process_limit {
            Some(n) => n,
            None => 0,
        },
        process_memory_limit: match l.process_memory_limit {
            Some(m) => m,
            None => 0,
        },
        job_memory_limit: match l.job_memory_limit {
            Some(m) => m,
            None => 0,
        },
    }
}

/// The limits a block holds: each one whose flag bit is set.
pub open spec fn spec_decode_limits(b: LimitBlock) -> JobLimits {
    JobLimits {
        active_process_limit: if b.limit_flags & JOB_OBJECT_LIMIT_ACTIVE_PROCESS != 0 {
            Some(b.active_process_limit)
        } else {
            None
        },
        process_memory_limit: if b.limit_flags & JOB_OBJECT_LIMIT_PROCESS_MEMORY != 0 {
            Some(b.process_memory_limit)
        } else {
            None
        },
        job_memory_limit: if b.limit_flags & JOB_OBJECT_LIMIT_JOB_MEMORY != 0 {
            Some(b.job_memory_limit)
        } else {
            None
        },
        per_process_user_time_limit: if b.limit_flags & JOB_OBJECT_LIMIT_PROCESS_TIME != 0 {
            Some(spec_ticks_to_duration(b.per_process_user_time_limit as int))
        } else {
            None
        },
        per_job_user_time_limit: if b.limit_flags & JOB_OBJECT_LIMIT_JOB_TIME != 0 {
            Some(spec_ticks_to_duration(b.per_job_user_time_limit as int))
        } else {
            None
        },
    }
}

/// Each limit is written to its own field of the block, with its own flag
/// bit set exactly when the limit is: the active-process count to
/// `ActiveProcessLimit` (`0x8`), the per-process memory limit to
/// `ProcessMemoryLimit` (`0x100`), the job-wide one to `JobMemoryLimit`
/// (`0x200`), and the two user-time limits to their bits `0x2` and `0x4`;
/// an unset limit leaves its field zero.
pub proof fn lemma_encoded_limit_fields(l: JobLimits)
    ensures
        spec_encode_limits(l).active_process_limit == (match l.active_process_limit {
            Some(n) => n,
            None => 0,
        }),
        spec_encode_limits(l).process_memory_limit == (match l.process_memory_limit {
            Some(m) => m,
            None => 0,
        }),
        spec_encode_limits(l).job_memory_limit == (match l.job_memory_limit {
            Some(m) => m,
            None => 0,
        }),
        (spec_encode_limits(l).limit_flags & 0x8 != 0) == l.active_process_limit is Some,
        (spec_encode_limits(l).limit_flags & 0x100 != 0) == l.process_memory_limit is Some,
        (spec_encode_limits(l).limit_flags & 0x200 != 0) == l.job_memory_limit is Some,
        (spec_encode_limits(l).limit_flags & 0x2 != 0) == l.per_process_user_time_limit is Some,
        (spec_encode_limits(l).limit_flags & 0x4 != 0) == l.per_job_user_time_limit is Some,
{
    let a = l.active_process_limit is Some;
    let p = l.per_process_user_time_limit is Some;
    let j = l.per_job_user_time_limit is Some;
    let pm = l.process_memory_limit is Some;
    let jm = l.job_memory_limit is Some;
    let f = limit_flags_of(l);
    assert(f == (if a { 8u32 } else { 0u32 }) | (if p { 2u32 } else { 0u32 }) | (if j { 4u32 } else {
        0u32
    }) | (if pm { 0x100u32 } else { 0u32 }) | (if jm { 0x200u32 } else { 0u32 }));
    assert((f & 0x8 != 0) == a && (f & 0x100 != 0) == pm && (f & 0x200 != 0) == jm && (f & 0x2
        != 0) == p && (f & 0x4 != 0) == j) by (bit_vector)
        requires
            f == (if a { 8u32 } else { 0u32 }) | (if p { 2u32 } else { 0u32 }) | (if j { 4u32 } else {
                0u32
            }) | (if pm { 0x100u32 } else { 0u32 }) | (if jm { 0x200u32 } else { 0u32 }),
    ;
}

/// A queried block reports each limit from its own field, exactly when that
/// limit's flag bit is set: the active-process count from
/// `ActiveProcessLimit` (`0x8`), the per-process memory limit from
/// `ProcessMemoryLimit` (`0x100`), the job-wide one from `JobMemoryLimit`
/// (`0x200`).
pub proof fn lemma_decoded_limit_fields(b: LimitBlock)
    ensures
        spec_decode_limits(b).active_process_limit == (if b.limit_flags & 0x8 != 0 {
            Some(b.active_process_limit)
        } else {
            None
        }),
        spec_decode_limits(b).process_memory_limit == (if b.limit_flags & 0x100 != 0 {
            Some(b.process_memory_limit)
        } else {
            None
        }),
        spec_decode_limits(b).job_memory_limit == (if b.limit_flags & 0x200 != 0 {
            Some(b.job_memory_limit)
        } else {
            None
        }),
{
}

/// The limit block `set_resource_limits` writes for `limits`: each set
/// limit's value with its flag bit, everything else zero.
pub fn encode_limits(limits: &JobLimits) -> (b: LimitBlock)
    requires
        limits_fit(*limits),
    ensures
        b == spec_encode_limits(*limits),
        b.active_process_limit == (match limits.active_process_limit {
            Some(n) => n,
            None => 0,
        }),
        b.process_memory_limit == (match limits.process_memory_limit {
            Some(m) => m,
            None => 0,
        }),
        b.job_memory_limit == (match limits.job_memory_limit {
            Some(m) => m,
            None => 0,
        }),
        (b.limit_flags & JOB_OBJECT_LIMIT_ACTIVE_PROCESS != 0) == limits.active_process_limit is Some,
        (b.limit_flags & JOB_OBJECT_LIMIT_PROCESS_MEMORY != 0) == limits.process_memory_limit is Some,
        (b.limit_flags & JOB_OBJECT_LIMIT_JOB_MEMORY != 0) == limits.job_memory_limit is Some,
        (b.limit_flags & JOB_OBJECT_LIMIT_PROCESS_TIME != 0)
            == limits.per_process_user_time_limit is Some,
        (b.limit_flags & JOB_OBJECT_LIMIT_JOB_TIME != 0) == limits.per_job_user_time_limit is Some,
{
    proof {
        lemma_encoded_limit_fields(*limits);
    }
    let flags = (if limits.active_process_limit.is_some() {
        JOB_OBJECT_LIMIT_ACTIVE_PROCESS
    } else {
        0
    }) | (if limits.per_process_user_time_limit.is_some() {
        JOB_OBJECT_LIMIT_PROCESS_TIME
    } else {
        0
    }) | (if limits.per_job_user_time_limit.is_some() {
        JOB_OBJECT_LIMIT_JOB_TIME
    } else {
        0
    }) | (if limits.process_memory_limit.is_some() {
        JOB_OBJECT_LIMIT_PROCESS_MEMORY
    } else {
        0
    }) | (if limits.job_memory_limit.is_some() {
        JOB_OBJECT_LIMIT_JOB_MEMORY
    } else {
        0
    });
    let per_process_user_time_limit = match limits.per_process_user_time_limit {
        Some(t) => crate::time::duration_to_ticks(t),
        None => 0,
    };
    let per_job_user_time_limit = match limits.per_job_user_time_limit {
        Some(t) => crate::time::duration_to_ticks(t),
        None => 0,
    };
    LimitBlock {
        limit_flags: flags,
        per_process_user_time_limit,
        per_job_user_time_limit,
        active_process_limit: match limits.active_process_limit {
            Some(n) => n,
            None => 0,
        },
        process_memory_limit: match limits.process_memory_limit {
            Some(m) => m,
            None => 0,
        },
        job_memory_limit: match limits.job_memory_limit {
            Some(m) => m,
            None => 0,
        },
    }
}

/// The limits a queried block holds: a limit is `Some` exactly when its
/// flag bit is set, the time limits converted from ticks.
pub fn decode_limits(b: &LimitBlock) -> (l: JobLimits)
    ensures
        l == spec_decode_limits(*b),
        l.active_process_limit == (if b.limit_flags & JOB_OBJECT_LIMIT_ACTIVE_PROCESS != 0 {
            Some(b.active_process_limit)
        } else {
            None
        }),
        l.process_memory_limit == (if b.limit_flags & JOB_OBJECT_LIMIT_PROCESS_MEMORY != 0 {
            Some(b.process_memory_limit)
        } else {
            None
        }),
        l.job_memory_limit == (if b.limit_flags & JOB_OBJECT_LIMIT_JOB_MEMORY != 0 {
            Some(b.job_memory_limit)
        } else {
            None
        }),
{
    proof {
        lemma_decoded_limit_fields(*b);
    }
    let flags = b.limit_flags;
    JobLimits {
        active_process_limit: if flags & JOB_OBJECT_LIMIT_ACTIVE_PROCESS != 0 {
            Some(b.active_process_limit)
        } else {
            None
        },
        process_memory_limit: if flags & JOB_OBJECT_LIMIT_PROCESS_MEMORY != 0 {
            Some(b.process_memory_limit)
        } else {
            None
        },
        job_memory_limit: if flags & JOB_OBJECT_LIMIT_JOB_MEMORY != 0 {
            Some(b.job_memory_limit)
        } else {
            None
        },
        per_process_user_time_limit: if flags & JOB_OBJECT_LIMIT_PROCESS_TIME != 0 {
            Some(crate::time::ticks_to_duration(b.per_process_user_time_limit))
        } else {
            None
        },
        per_job_user_time_limit: if flags & JOB_OBJECT_LIMIT_JOB_TIME != 0 {
            Some(crate::time::ticks_to_duration(b.per_job_user_time_limit))
        } else {
            None
        },
    }
}

/// The limit block that sets only kill-on-close.
pub fn kill_on_close_block() -> (b: LimitBlock)
    ensures
        b == (LimitBlock {
            limit_flags: JOB_OBJECT_LIMIT_KILL_ON_JOB_CLOSE,
            per_process_user_time_limit: 0,
            per_job_user_time_limit: 0,
            active_process_limit: 0,
            process_memory_limit: 0,
            job_memory_limit: 0,
        }),
{
    LimitBlock {
        limit_flags: JOB_OBJECT_LIMIT_KILL_ON_JOB_CLOSE,
        per_process_user_time_limit: 0,
        per_job_user_time_limit: 0,
        active_process_limit: 0,
        process_memory_limit: 0,
        job_memory_limit: 0,
    }
}

/// The all-zero limit block (no limit, no kill-on-close) that clearing
/// kill-on-close writes.
pub fn cleared_limit_block() -> (b: LimitBlock)
    ensures
        b == (LimitBlock {
            limit_flags: 0,
            per_process_user_time_limit: 0,
            per_job_user_time_limit: 0,
            active_process_limit: 0,
            process_memory_limit: 0,
            job_memory_limit: 0,
        }),
{
    LimitBlock {
        limit_flags: 0,
        per_process_user_time_limit: 0,
        per_job_user_time_limit: 0,
        active_process_limit: 0,
        process_memory_limit: 0,
        job_memory_limit: 0,
    }
}

/// A time limit that reads back exactly as written: a normalized duration
/// in whole 100ns ticks that fits the tick count.
pub open spec fn exact_time_limit(t: Option<Timespec>) -> bool {
    t matches Some(d) ==> d.nanos < 1_000_000_000 && d.nanos % 100 == 0
        && duration_fits(d)
}

/// The limits whose block reads back as the same limits.
pub open spec fn exact_limits(l: JobLimits) -> bool {
    exact_time_limit(l.per_process_user_time_limit) && exact_time_limit(l.per_job_user_time_limit)
}

proof fn lemma_flag_bits(a: bool, p: bool, j: bool, pm: bool, jm: bool)
    ensures
        ((flag_if(a, 8) | flag_if(p, 2) | flag_if(j, 4) | flag_if(pm, 0x100) | flag_if(jm, 0x200))
            & 8 != 0) == a,
        ((flag_if(a, 8) | flag_if(p, 2) | flag_if(j, 4) | flag_if(pm, 0x100) | flag_if(jm, 0x200))
            & 2 != 0) == p,
        ((flag_if(a, 8) | flag_if(p, 2) | flag_if(j, 4) | flag_if(pm, 0x100) | flag_if(jm, 0x200))
            & 4 != 0) == j,
        ((flag_if(a, 8) | flag_if(p, 2) | flag_if(j, 4) | flag_if(pm, 0x100) | flag_if(jm, 0x200))
            & 0x100 != 0) == pm,
        ((flag_if(a, 8) | flag_if(p, 2) | flag_if(j, 4) | flag_if(pm, 0x100) | flag_if(jm, 0x200))
            & 0x200 != 0) == jm,
        ((flag_if(a, 8) | flag_if(p, 2) | flag_if(j, 4) | flag_if(pm, 0x100) | flag_if(jm, 0x200))
            & 0x2000) == 0,
{
    assert(((flag_if(a, 8) | flag_if(p, 2) | flag_if(j, 4) | flag_if(pm, 0x100) | flag_if(jm, 0x200))
        & 8 != 0) == a) by (bit_vector);
    assert(((flag_if(a, 8) | flag_if(p, 2) | flag_if(j, 4) | flag_if(pm, 0x100) | flag_if(jm, 0x200))
        & 2 != 0) == p) by (bit_vector);
    assert(((flag_if(a, 8) | flag_if(p, 2) | flag_if(j, 4) | flag_if(pm, 0x100) | flag_if(jm, 0x200))
        & 4 != 0) == j) by (bit_vector);
    assert(((flag_if(a, 8) | flag_if(p, 2) | flag_if(j, 4) | flag_if(pm, 0x100) | flag_if(jm, 0x200))
        & 0x100 != 0) == pm) by (bit_vector);
    assert(((flag_if(a, 8) | flag_if(p, 2) | flag_if(j, 4) | flag_if(pm, 0x100) | flag_if(jm, 0x200))
        & 0x200 != 0) == jm) by (bit_vector);
    assert(((flag_if(a, 8) | flag_if(p, 2) | flag_if(j, 4) | flag_if(pm, 0x100) | flag_if(jm, 0x200))
        & 0x2000) == 0) by (bit_vector);
}

/// Reading back the block written for a set of limits gives the same
/// limits, for every limit whose time values are normalized durations in
/// whole ticks that fit a tick count; the block never sets kill-on-close.
pub proof fn lemma_limits_round_trip(l: JobLimits)
    requires
        limits_fit(l),
        exact_limits(l),
    ensures
        spec_decode_limits(spec_encode_limits(l)) == l,
        spec_encode_limits(l).limit_flags & JOB_OBJECT_LIMIT_KILL_ON_JOB_CLOSE == 0,
{
    lemma_flag_bits(
        l.active_process_limit is Some,
        l.per_process_user_time_limit is Some,
        l.per_job_user_time_limit is Some,
        l.process_memory_limit is Some,
        l.job_memory_limit is Some,
    );
    if let Some(t) = l.per_process_user_time_limit {
        crate::time::lemma_duration_ticks_round_trip(t);
    }
    if let Some(t) = l.per_job_user_time_limit {
        crate::time::lemma_duration_ticks_round_trip(t);
    }
}

/// A block with no limit flag set (a fresh job's, the kill-on-close block,
/// the cleared block) reads back as no limit at all.
pub proof fn lemma_no_flags_no_limits(b: LimitBlock)
    requires
        b.limit_flags & 0x30E == 0,
    ensures
        spec_decode_limits(b) == (JobLimits {
            active_process_limit: None,
            process_memory_limit: None,
            job_memory_limit: None,
            per_process_user_time_limit: None,
            per_job_user_time_limit: None,
        }),
{
    let f = b.limit_flags;
    assert(f & 0x30E == 0 ==> f & 8 == 0 && f & 2 == 0 && f & 4 == 0 && f & 0x100 == 0 && f & 0x200
        == 0) by (bit_vector);
}

/// The byte length of a process-id list buffer with room for `capacity`
/// entries.
pub fn process_id_list_len(capacity: u32) -> (n: usize)
    requires
        PROCESS_ID_LIST_HEADER_LEN + capacity * PROCESS_ID_ENTRY_LEN <= usize::MAX,
    ensures
        n == PROCESS_ID_LIST_HEADER_LEN + capacity * PROCESS_ID_ENTRY_LEN,
{
    PROCESS_ID_LIST_HEADER_LEN + (capacity as usize) * PROCESS_ID_ENTRY_LEN
}

/// The capacity to retry a too-small process-id list with: the number of
/// processes the job reported, or twice the old capacity if that is more.
pub fn next_process_id_capacity(assigned: u32, capacity: u32) -> (c: u32)
    requires
        capacity <= u32::MAX / 2,
    ensures
        c == (if assigned >= 2 * capacity {
            assigned as int
        } else {
            2 * capacity
        }),
        c > capacity || c == 0,
{
    let doubled = capacity * 2;
    if assigned >= doubled {
        assigned
    } else {
        doubled
    }
}

/// The pids a `JOBOBJECT_BASIC_PROCESS_ID_LIST` holds: after the 8-byte
/// header, `NumberOfProcessIdsInList` entries of 8 bytes each, each pid the
/// low 32 bits of its entry.
pub open spec fn process_id_list(b: Seq<u8>) -> Seq<u32> {
    Seq::new(
        le_u32_at(b, 4) as nat,
        |i: int| le_u32_at(b, PROCESS_ID_LIST_HEADER_LEN + i * PROCESS_ID_ENTRY_LEN),
    )
}

/// The buffer holds as many entries as its header says.
pub open spec fn process_id_list_fits(b: Seq<u8>) -> bool {
    b.len() >= PROCESS_ID_LIST_HEADER_LEN && PROCESS_ID_LIST_HEADER_LEN + le_u32_at(b, 4)
        * PROCESS_ID_ENTRY_LEN <= b.len()
}

/// Reads the pids of a process-id list a successful query filled in.
pub fn parse_process_id_list(buf: &[u8]) -> (pids: Vec<u32>)
    requires
        process_id_list_fits(buf@),
    ensures
        pids@ == process_id_list(buf@),
{
    let n = crate::bytes::read_le_u32(buf, 4) as usize;
    let len = buf.len();
    let mut pids: Vec<u32> = Vec::new();
    let mut i: usize = 0;
    while i < n
        invariant
            len == buf@.len(),
            n == le_u32_at(buf@, 4),
            process_id_list_fits(buf@),
            i <= n,
            pids@ == process_id_list(buf@).take(i as int),
        decreases n - i,
    {
        assert(8 + i * 8 + 4 <= buf@.len()) by (nonlinear_arith)
            requires
                i < n,
                8 + n * 8 <= buf@.len(),
        ;
        let off = PROCESS_ID_LIST_HEADER_LEN + i * PROCESS_ID_ENTRY_LEN;
        let pid = crate::bytes::read_le_u32(buf, off);
        pids.push(pid);
        proof {
            assert(process_id_list(buf@).take(i + 1) =~= process_id_list(buf@).take(i as int).push(
                pid,
            ));
        }
        i = i + 1;
    }
    proof {
        assert(process_id_list(buf@).take(n as int) =~= process_id_list(buf@));
    }
    pids
}

/// What one process-id list query calls for next.
#[derive(Debug, Clone, PartialEq, Eq)]
pub enum PidListStep {
    /// Give up with this error.
    Fail(Win32Error),
    /// The list did not fit: query again with room for this many entries.
    Retry(u32),
    /// The job's pids.
    Done(Vec<u32>),
}

/// Decides what a process-id list query that returned `ok` (with last
/// error `err`) into `buf`, sized for `capacity` entries, calls for: on
/// success the pids the buffer holds (`ERROR_INVALID_DATA` if its header
/// counts more entries than it has room for); on `ERROR_MORE_DATA` a retry
/// with room for the number of processes the job reported, or twice the
/// old capacity if that is more; on any other failure that error.
pub fn process_id_list_step(ok: bool, err: Win32Error, buf: &[u8], capacity: u32) -> (s:
    PidListStep)
    requires
        buf@.len() >= PROCESS_ID_LIST_HEADER_LEN,
        !ok && err@ == 234 ==> capacity <= u32::MAX / 2,
    ensures
        ok && process_id_list_fits(buf@) ==> (s matches PidListStep::Done(pids) && pids@
            == process_id_list(buf@)),
        ok && !process_id_list_fits(buf@) ==> (s matches PidListStep::Fail(e) && e@ == 13),
        !ok && err@ == 234 ==> s == PidListStep::Retry(
            if le_u32_at(buf@, 0) >= 2 * capacity {
                le_u32_at(buf@, 0)
            } else {
                (2 * capacity) as u32
            },
        ),
        !ok && err@ != 234 ==> s == PidListStep::Fail(err),
{
    if ok {
        let in_list = crate::bytes::read_le_u32(buf, 4) as usize;
        if in_list > (buf.len() - PROCESS_ID_LIST_HEADER_LEN) / PROCESS_ID_ENTRY_LEN {
            proof {
                assert(!process_id_list_fits(buf@)) by (nonlinear_arith)
                    requires
                        in_list > (buf@.len() - 8) / 8,
                        in_list == le_u32_at(buf@, 4),
                        buf@.len() >= 8,
                ;
            }
            PidListStep::Fail(Win32Error::ERROR_INVALID_DATA())
        } else {
            proof {
                assert(process_id_list_fits(buf@)) by (nonlinear_arith)
                    requires
                        in_list <= (buf@.len() - 8) / 8,
                        in_list == le_u32_at(buf@, 4),
                        buf@.len() >= 8,
                ;
            }
            PidListStep::Done(parse_process_id_list(buf))
        }
    } else if err.code() == 234 {
        let assigned = crate::bytes::read_le_u32(buf, 0);
        PidListStep::Retry(next_process_id_capacity(assigned, capacity))
    } else {
        PidListStep::Fail(err)
    }
}

/// Accounting totals of a job over its whole lifetime.
#[derive(Debug, Clone, Copy, Default, PartialEq, Eq, Structural)]
pub struct JobAccounting {
    pub total_user_time: Timespec,
    pub total_kernel_time: Timespec,
    pub total_page_fault_count: u32,
    /// Every process ever assigned, terminated ones included.
    pub total_processes: u32,
    /// Processes assigned now.
    pub active_processes: u32,
    pub total_terminated_processes: u32,
    pub read_operation_count: u64,
    pub write_operation_count: u64,
    pub other_operation_count: u64,
    pub read_transfer_count: u64,
    pub write_transfer_count: u64,
    pub other_transfer_count: u64,
}

/// The fields of `JOBOBJECT_BASIC_AND_IO_ACCOUNTING_INFORMATION` the
/// accounting totals are read from, CPU times in 100ns ticks.
#[derive(Debug, Clone, Copy, Default, PartialEq, Eq, Structural)]
pub struct AccountingBlock {
    pub total_user_time: i64,
    pub total_kernel_time: i64,
    pub total_page_fault_count: u32,
    pub total_processes: u32,
    pub active_processes: u32,
    pub total_terminated_processes: u32,
    pub read_operation_count: u64,
    pub write_operation_count: u64,
    pub other_operation_count: u64,
    pub read_transfer_count: u64,
    pub write_transfer_count: u64,
    pub other_transfer_count: u64,
}

impl JobAccounting {
    /// The totals an accounting block reports, CPU times converted from
    /// ticks.
    pub fn from_block(b: &AccountingBlock) -> (a: JobAccounting)
        ensures
            a.total_user_time == spec_ticks_to_duration(b.total_user_time as int),
            a.total_kernel_time == spec_ticks_to_duration(b.total_kernel_time as int),
            a.total_page_fault_count == b.total_page_fault_count,
            a.total_processes == b.total_processes,
            a.active_processes == b.active_processes,
            a.total_terminated_processes == b.total_terminated_processes,
            a.read_operation_count == b.read_operation_count,
            a.write_operation_count == b.write_operation_count,
            a.other_operation_count == b.other_operation_count,
            a.read_transfer_count == b.read_transfer_count,
            a.write_transfer_count == b.write_transfer_count,
            a.other_transfer_count == b.other_transfer_count,
    {
        JobAccounting {
            total_user_time: crate::time::ticks_to_duration(b.total_user_time),
            total_kernel_time: crate::time::ticks_to_duration(b.total_kernel_time),
            total_page_fault_count: b.total_page_fault_count,
            total_processes: b.total_processes,
            active_processes: b.active_processes,
            total_terminated_processes: b.total_terminated_processes,
            read_operation_count: b.read_operation_count,
            write_operation_count: b.write_operation_count,
            other_operation_count: b.other_operation_count,
            read_transfer_count: b.read_transfer_count,
            write_transfer_count: b.write_transfer_count,
            other_transfer_count: b.other_transfer_count,
        }
    }
}

/// One job-lifecycle notification: a `JOB_OBJECT_MSG_*` code, the process
/// it concerns (0 for job-wide messages), and the completion key the job
/// was associated with.
#[derive(Debug, Clone, Copy, PartialEq, Eq, Structural)]
pub struct JobMessage {
    pub completion_key: usize,
    pub message: u32,
    pub pid: u32,
}

/// The message a dequeued completion packet carries: the byte count is the
/// message code, the overlapped pointer's value is the pid.
pub fn job_message(completion_key: usize, bytes_transferred: u32, overlapped: usize) -> (m:
    JobMessage)
    ensures
        m == (JobMessage {
            completion_key,
            message: bytes_transferred,
            pid: overlapped as u32,
        }),
{
    JobMessage { completion_key, message: bytes_transferred, pid: overlapped as u32 }
}

/// The result of a message wait whose call failed with `err`: a timeout
/// (`WAIT_TIMEOUT`) is "no message", any other error is itself.
pub fn message_wait_failure(err: Win32Error) -> (r: Result<Option<JobMessage>, Win32Error>)
    ensures
        err@ == 258 ==> r == Ok::<Option<JobMessage>, Win32Error>(None),
        err@ != 258 ==> r == Err::<Option<JobMessage>, Win32Error>(err),
{
    if err.code() == crate::handle::WAIT_TIMEOUT {
        Ok(None)
    } else {
        Err(err)
    }
}

} // verus!
