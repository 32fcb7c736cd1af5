use rusty_win32::env::{environment_block, parse_environment_block, parse_environment_entry};
use rusty_win32::error::Win32Error;
use rusty_win32::process::{
    computer_name_retry, creation_flags, decode_exe_file, env_var_failure, image_path_retry,
    logical_processor_entries, logical_processor_record_count, process_wait_outcome,
    threads_owned_by, wait_any_outcome, LogicalProcessorInformation, ProcessEntry, ProcessTimes,
    ProcessWait, ProcessorRelationship, Retry, ThreadTimes, WaitAny,
};
use rusty_win32::time::{FileTime, Timespec};

#[test]
fn environment_block_is_double_nul_terminated() {
    let block = environment_block(&[]);
    assert_eq!(block, vec![0u16, 0u16]);

    let block = environment_block(&[("A", "1"), ("B", "2")]);
    let text: String = char::decode_utf16(block[..block.len() - 1].iter().copied())
        .map(|r| r.unwrap())
        .collect();
    assert_eq!(text, "A=1\0B=2\0");
    assert_eq!(block.last(), Some(&0u16));
}

#[test]
fn an_environment_block_reads_back_as_its_variables() {
    let vars = [("PATH", "C:\\bin;D:\\x=y"), ("EMPTY", ""), ("U", "\u{1F600}")];
    let block = environment_block(&vars);
    let back = parse_environment_block(&block);
    let expected: Vec<(String, String)> =
        vars.iter().map(|(n, v)| (n.to_string(), v.to_string())).collect();
    assert_eq!(back, expected);
}

#[test]
fn a_drive_entry_keeps_its_leading_equals_in_the_name() {
    let units: Vec<u16> = "=C:=C:\\work".encode_utf16().collect();
    assert_eq!(
        parse_environment_entry(&units),
        Some(("=C:".to_string(), "C:\\work".to_string()))
    );
    let none: Vec<u16> = "NOSEPARATOR".encode_utf16().collect();
    assert_eq!(parse_environment_entry(&none), None);
    let lead_only: Vec<u16> = "=X".encode_utf16().collect();
    assert_eq!(parse_environment_entry(&lead_only), None);
}

#[test]
fn creation_flags_add_the_environment_and_group_bits() {
    assert_eq!(creation_flags(false, false), 0x4);
    assert_eq!(creation_flags(true, false), 0x404);
    assert_eq!(creation_flags(false, true), 0x204);
    assert_eq!(creation_flags(true, true), 0x604);
}

#[test]
fn process_waits_read_their_return_codes() {
    assert_eq!(process_wait_outcome(0), ProcessWait::Exited);
    assert_eq!(process_wait_outcome(258), ProcessWait::TimedOut);
    assert_eq!(process_wait_outcome(0xFFFF_FFFF), ProcessWait::Failed);
    assert_eq!(process_wait_outcome(0x80), ProcessWait::Failed);
    assert_eq!(wait_any_outcome(2, 3), WaitAny::Exited(2));
    assert_eq!(wait_any_outcome(0, 1), WaitAny::Exited(0));
    assert_eq!(wait_any_outcome(258, 3), WaitAny::TimedOut);
    assert_eq!(wait_any_outcome(0xFFFF_FFFF, 3), WaitAny::Failed);
    assert_eq!(wait_any_outcome(0x80, 3), WaitAny::Unexpected(Win32Error::from_raw(0x80)));
    assert_eq!(wait_any_outcome(3, 3), WaitAny::Unexpected(Win32Error::from_raw(3)));
}

#[test]
fn thread_snapshots_are_filtered_by_owner_in_order() {
    let entries = [(10, 1), (11, 2), (12, 1), (13, 3)];
    assert_eq!(threads_owned_by(&entries, 1), vec![10, 12]);
    assert_eq!(threads_owned_by(&entries, 4), Vec::<u32>::new());
    assert_eq!(threads_owned_by(&[], 1), Vec::<u32>::new());
}

#[test]
fn exe_file_names_stop_at_the_first_nul() {
    let mut units = [0u16; 260];
    for (i, u) in "cmd.exe".encode_utf16().enumerate() {
        units[i] = u;
    }
    units[9] = 0x41;
    assert_eq!(decode_exe_file(&units), "cmd.exe");
    let full = [0x41u16; 260];
    assert_eq!(decode_exe_file(&full).len(), 260);
    let e = ProcessEntry::from_snapshot(42, 4, 3, &units);
    assert_eq!(e.pid, 42);
    assert_eq!(e.parent_pid, 4);
    assert_eq!(e.thread_count, 3);
    assert_eq!(e.exe_file, "cmd.exe");
}

#[test]
fn processor_relationships_and_records() {
    assert_eq!(ProcessorRelationship::from_raw(0), ProcessorRelationship::ProcessorCore);
    assert_eq!(ProcessorRelationship::from_raw(1), ProcessorRelationship::NumaNode);
    assert_eq!(ProcessorRelationship::from_raw(2), ProcessorRelationship::Cache);
    assert_eq!(ProcessorRelationship::from_raw(3), ProcessorRelationship::ProcessorPackage);
    assert_eq!(ProcessorRelationship::from_raw(7), ProcessorRelationship::Unknown(7));
    assert_eq!(logical_processor_record_count(96), 3);
    assert_eq!(logical_processor_record_count(100), 3);
    assert_eq!(logical_processor_record_count(0), 0);
    assert_eq!(
        logical_processor_entries(&[(0b11, 0), (0xF, 3)]),
        vec![
            LogicalProcessorInformation {
                processor_mask: 0b11,
                relationship: ProcessorRelationship::ProcessorCore
            },
            LogicalProcessorInformation {
                processor_mask: 0xF,
                relationship: ProcessorRelationship::ProcessorPackage
            },
        ]
    );
}

#[test]
fn cpu_times_convert_instants_and_durations() {
    let epoch = FileTime { low: 0xD53E_8000, high: 0x019D_B1DE };
    let one_and_a_half = FileTime { low: 0xD623_61C0, high: 0x019D_B1DE };
    let zero = FileTime { low: 0, high: 0 };
    let kernel = FileTime { low: 15_000_000, high: 0 };
    let t = ProcessTimes::from_filetimes(one_and_a_half, epoch, kernel, zero);
    assert_eq!(t.creation, Timespec { secs: 1, nanos: 500_000_000 });
    assert_eq!(t.exit, Timespec { secs: 0, nanos: 0 });
    assert_eq!(t.kernel_time, Timespec { secs: 1, nanos: 500_000_000 });
    assert_eq!(t.user_time, Timespec { secs: 0, nanos: 0 });
    let running = ThreadTimes::from_filetimes(epoch, zero, zero, zero);
    assert_eq!(running.exit, Timespec { secs: -11_644_473_600, nanos: 0 });
}

#[test]
fn environment_reads_that_report_zero() {
    assert_eq!(env_var_failure(Win32Error::ERROR_ENVIRONMENT_VARIABLE_NOT_FOUND()), Ok(None));
    assert_eq!(env_var_failure(Win32Error::SUCCESS()), Ok(Some(String::new())));
    assert_eq!(
        env_var_failure(Win32Error::ERROR_ACCESS_DENIED()),
        Err(Win32Error::ERROR_ACCESS_DENIED())
    );
}

#[test]
fn retrying_queries_grow_or_give_up() {
    assert_eq!(image_path_retry(0, 260, Win32Error::ERROR_INSUFFICIENT_BUFFER()), Retry::Grow(520));
    assert_eq!(
        image_path_retry(7, 33280, Win32Error::ERROR_INSUFFICIENT_BUFFER()),
        Retry::Fail(Win32Error::ERROR_INSUFFICIENT_BUFFER())
    );
    assert_eq!(
        image_path_retry(0, 260, Win32Error::ERROR_ACCESS_DENIED()),
        Retry::Fail(Win32Error::ERROR_ACCESS_DENIED())
    );
    assert_eq!(computer_name_retry(0, 300, Win32Error::ERROR_BUFFER_OVERFLOW()), Retry::Grow(300));
    assert_eq!(
        computer_name_retry(1, 300, Win32Error::ERROR_BUFFER_OVERFLOW()),
        Retry::Fail(Win32Error::ERROR_INSUFFICIENT_BUFFER())
    );
    assert_eq!(
        computer_name_retry(0, 300, Win32Error::ERROR_INVALID_PARAMETER()),
        Retry::Fail(Win32Error::ERROR_INVALID_PARAMETER())
    );
}
