use rusty_win32::time::{
    counter_to_timespec, duration_to_ticks, filetime_to_duration, filetime_to_timespec,
    ticks_to_duration, FileTime, Timespec,
};

#[test]
fn filetimes_are_relative_to_the_unix_epoch() {
    assert_eq!(
        filetime_to_timespec(FileTime { low: 0xD53E_8000, high: 0x019D_B1DE }),
        Timespec { secs: 0, nanos: 0 }
    );
    assert_eq!(
        filetime_to_timespec(FileTime { low: 0xD623_61C0, high: 0x019D_B1DE }),
        Timespec { secs: 1, nanos: 500_000_000 }
    );
    assert_eq!(
        filetime_to_timespec(FileTime { low: 0xD53E_7FFF, high: 0x019D_B1DE }),
        Timespec { secs: -1, nanos: 999_999_900 }
    );
    assert_eq!(
        filetime_to_timespec(FileTime { low: 0, high: 0 }),
        Timespec { secs: -11_644_473_600, nanos: 0 }
    );
}

#[test]
fn durations_split_into_whole_seconds_and_nanoseconds_below_one_second() {
    assert_eq!(ticks_to_duration(15_000_000), Timespec { secs: 1, nanos: 500_000_000 });
    assert_eq!(ticks_to_duration(0), Timespec { secs: 0, nanos: 0 });
    assert_eq!(ticks_to_duration(-1), Timespec { secs: -1, nanos: 999_999_900 });
    assert_eq!(ticks_to_duration(-5), Timespec { secs: -1, nanos: 999_999_500 });
    assert_eq!(ticks_to_duration(-10_000_000), Timespec { secs: -1, nanos: 0 });
    assert_eq!(ticks_to_duration(-15_000_000), Timespec { secs: -2, nanos: 500_000_000 });
    assert_eq!(
        filetime_to_duration(FileTime { low: 15_000_000, high: 0 }),
        Timespec { secs: 1, nanos: 500_000_000 }
    );
}

#[test]
fn durations_convert_back_to_whole_ticks() {
    assert_eq!(duration_to_ticks(Timespec { secs: 1, nanos: 500_000_099 }), 15_000_000);
    assert_eq!(duration_to_ticks(Timespec { secs: 30, nanos: 0 }), 300_000_000);
    for ticks in [0i64, 1, 9_999_999, 10_000_000, 123_456_789_012, -1, -5, -10_000_001] {
        assert_eq!(duration_to_ticks(ticks_to_duration(ticks)), ticks);
    }
    let t = Timespec { secs: 12, nanos: 345_678_900 };
    assert_eq!(ticks_to_duration(duration_to_ticks(t)), t);
}

#[test]
fn counter_readings_split_into_seconds_and_nanoseconds() {
    assert_eq!(counter_to_timespec(25, 10), Timespec { secs: 2, nanos: 500_000_000 });
    assert_eq!(counter_to_timespec(10_000_001, 10_000_000), Timespec { secs: 1, nanos: 100 });
    assert_eq!(counter_to_timespec(-25, 10), Timespec { secs: -3, nanos: 500_000_000 });
    assert_eq!(counter_to_timespec(-1, 3), Timespec { secs: -1, nanos: 666_666_666 });
}
