use rusty_win32::error::Win32Error;
use rusty_win32::job::{
    cleared_limit_block, decode_limits, encode_limits, job_message, kill_on_close_block,
    message_wait_failure, next_process_id_capacity, parse_process_id_list, process_id_list_len,
    process_id_list_step, AccountingBlock, JobAccounting, JobLimits, JobMessage, LimitBlock,
    PidListStep,
};
use rusty_win32::time::Timespec;

#[test]
fn set_resource_limits_round_trips_through_a_query() {
    let limits_in = JobLimits {
        active_process_limit: Some(4),
        process_memory_limit: Some(64 * 1024 * 1024),
        job_memory_limit: Some(256 * 1024 * 1024),
        per_process_user_time_limit: Some(Timespec { secs: 30, nanos: 0 }),
        per_job_user_time_limit: Some(Timespec { secs: 60, nanos: 0 }),
    };
    let block = encode_limits(&limits_in);
    let limits_out = decode_limits(&block);
    assert_eq!(limits_out, limits_in, "every limit set should read back exactly as set");
}

#[test]
fn limits_reports_none_for_anything_never_set() {
    assert_eq!(decode_limits(&cleared_limit_block()), JobLimits::default());
    assert_eq!(decode_limits(&kill_on_close_block()), JobLimits::default());
}

#[test]
fn the_limit_block_carries_one_flag_per_limit() {
    let only_active = JobLimits { active_process_limit: Some(2), ..JobLimits::default() };
    let b = encode_limits(&only_active);
    assert_eq!(b.limit_flags, 0x8);
    assert_eq!(b.active_process_limit, 2);
    let all = JobLimits {
        active_process_limit: Some(1),
        process_memory_limit: Some(1),
        job_memory_limit: Some(1),
        per_process_user_time_limit: Some(Timespec { secs: 0, nanos: 100 }),
        per_job_user_time_limit: Some(Timespec { secs: 1, nanos: 250 }),
    };
    let b = encode_limits(&all);
    assert_eq!(b.limit_flags, 0x8 | 0x2 | 0x4 | 0x100 | 0x200);
    assert_eq!(b.per_process_user_time_limit, 1);
    assert_eq!(b.per_job_user_time_limit, 10_000_002);
    assert_eq!(encode_limits(&JobLimits::default()), cleared_limit_block());
    assert_eq!(kill_on_close_block().limit_flags, 0x2000);
}

#[test]
fn a_block_with_unrecognized_bits_reads_only_the_known_limits() {
    let b = LimitBlock {
        limit_flags: 0x2000 | 0x8 | 0x2,
        per_process_user_time_limit: 25_000_000,
        per_job_user_time_limit: 99,
        active_process_limit: 3,
        process_memory_limit: 7,
        job_memory_limit: 9,
    };
    assert_eq!(
        decode_limits(&b),
        JobLimits {
            active_process_limit: Some(3),
            process_memory_limit: None,
            job_memory_limit: None,
            per_process_user_time_limit: Some(Timespec { secs: 2, nanos: 500_000_000 }),
            per_job_user_time_limit: None,
        }
    );
}

#[test]
fn process_id_lists_are_read_from_the_header_count() {
    let mut buf = vec![3u8, 0, 0, 0, 2, 0, 0, 0];
    buf.extend_from_slice(&1234u64.to_le_bytes());
    buf.extend_from_slice(&0x1_0000_0005u64.to_le_bytes());
    buf.extend_from_slice(&[0xEE; 8]);
    assert_eq!(parse_process_id_list(&buf), vec![1234, 5]);
    assert_eq!(parse_process_id_list(&[0, 0, 0, 0, 0, 0, 0, 0]), Vec::<u32>::new());
    assert_eq!(process_id_list_len(32), 8 + 32 * 8);
    assert_eq!(next_process_id_capacity(10, 32), 64);
    assert_eq!(next_process_id_capacity(100, 32), 100);
}

#[test]
fn a_process_id_query_that_did_not_fit_is_retried_never_reported() {
    let more = Win32Error::ERROR_MORE_DATA();
    let mut header = vec![100u8, 0, 0, 0, 32, 0, 0, 0];
    assert_eq!(process_id_list_step(false, more, &header, 32), PidListStep::Retry(100));
    header[0] = 10;
    assert_eq!(process_id_list_step(false, more, &header, 32), PidListStep::Retry(64));
    assert_eq!(
        process_id_list_step(false, Win32Error::ERROR_INVALID_DATA(), &header, 32),
        PidListStep::Fail(Win32Error::ERROR_INVALID_DATA())
    );
    let mut buf = vec![2u8, 0, 0, 0, 2, 0, 0, 0];
    buf.extend_from_slice(&77u64.to_le_bytes());
    buf.extend_from_slice(&78u64.to_le_bytes());
    assert_eq!(
        process_id_list_step(true, Win32Error::SUCCESS(), &buf, 2),
        PidListStep::Done(vec![77, 78])
    );
    buf.truncate(16);
    assert_eq!(
        process_id_list_step(true, Win32Error::SUCCESS(), &buf, 2),
        PidListStep::Fail(Win32Error::ERROR_INVALID_DATA())
    );
}

#[test]
fn completion_packets_become_job_messages() {
    assert_eq!(
        job_message(77, 7, 0x1_0000_0010),
        JobMessage { completion_key: 77, message: 7, pid: 0x10 }
    );
    assert_eq!(message_wait_failure(Win32Error::from_raw(258)), Ok(None));
    assert_eq!(
        message_wait_failure(Win32Error::ERROR_INVALID_HANDLE()),
        Err(Win32Error::ERROR_INVALID_HANDLE())
    );
}

#[test]
fn accounting_converts_cpu_ticks() {
    let b = AccountingBlock {
        total_user_time: 15_000_000,
        total_kernel_time: 10,
        total_page_fault_count: 5,
        total_processes: 1,
        active_processes: 0,
        total_terminated_processes: 0,
        read_operation_count: 1,
        write_operation_count: 2,
        other_operation_count: 3,
        read_transfer_count: 4,
        write_transfer_count: 5,
        other_transfer_count: 6,
    };
    let a = JobAccounting::from_block(&b);
    assert_eq!(a.total_user_time, Timespec { secs: 1, nanos: 500_000_000 });
    assert_eq!(a.total_kernel_time, Timespec { secs: 0, nanos: 1_000 });
    assert_eq!(a.total_processes, 1);
    assert_eq!(a.active_processes, 0);
    assert_eq!(a.other_transfer_count, 6);
}
