use rencfs_winfsp::time::{
    filetime_to_system_time, system_time_to_filetime, SystemTime, UNIX_EPOCH_FILETIME,
};
use std::time::{Duration, UNIX_EPOCH};

fn at(secs: i64, nanos: u32) -> SystemTime {
    SystemTime::new(secs, nanos).unwrap()
}

#[test]
fn unix_epoch_has_known_filetime() {
    assert_eq!(system_time_to_filetime(at(0, 0)), 116_444_736_000_000_000);
    assert_eq!(UNIX_EPOCH_FILETIME, 116_444_736_000_000_000);
}

#[test]
fn filetime_counts_hundreds_of_nanoseconds() {
    assert_eq!(system_time_to_filetime(at(0, 99)), 116_444_736_000_000_000);
    assert_eq!(system_time_to_filetime(at(0, 100)), 116_444_736_000_000_001);
    assert_eq!(system_time_to_filetime(at(1, 0)), 116_444_736_010_000_000);
    assert_eq!(system_time_to_filetime(at(1_700_000_000, 123_456_789)), 133_444_736_001_234_567);
}

#[test]
fn time_before_epoch_counts_as_epoch() {
    assert_eq!(system_time_to_filetime(at(-1, 999_999_999)), UNIX_EPOCH_FILETIME);
    assert_eq!(system_time_to_filetime(at(-12_000_000_000, 5)), UNIX_EPOCH_FILETIME);
}

#[test]
fn filetime_zero_and_early_filetimes_are_no_time() {
    assert_eq!(filetime_to_system_time(0), None);
    assert_eq!(filetime_to_system_time(1), None);
    assert_eq!(filetime_to_system_time(UNIX_EPOCH_FILETIME - 1), None);
}

#[test]
fn filetime_of_epoch_and_later_is_read() {
    assert_eq!(filetime_to_system_time(UNIX_EPOCH_FILETIME), Some(at(0, 0)));
    assert_eq!(filetime_to_system_time(UNIX_EPOCH_FILETIME + 1), Some(at(0, 100)));
    assert_eq!(
        filetime_to_system_time(133_444_736_001_234_567),
        Some(at(1_700_000_000, 123_456_700))
    );
    assert_eq!(filetime_to_system_time(u64::MAX), Some(at(1_833_029_933_770, 955_161_500)));
}

#[test]
fn filetimes_survive_a_round_trip() {
    for filetime in [UNIX_EPOCH_FILETIME, UNIX_EPOCH_FILETIME + 12_345_678, u64::MAX] {
        let time: SystemTime = filetime_to_system_time(filetime).unwrap();
        assert_eq!(system_time_to_filetime(time), filetime);
    }
}

#[test]
fn round_trip_of_a_time_loses_less_than_an_interval() {
    let time: SystemTime = at(1_700_000_000, 123_456_789);
    let back: SystemTime = filetime_to_system_time(system_time_to_filetime(time)).unwrap();
    assert_eq!(back, at(1_700_000_000, 123_456_700));
}

#[test]
fn filetimes_keep_the_order_of_times() {
    let times: [SystemTime; 4] = [at(-5, 0), at(0, 99), at(0, 100), at(7, 1)];
    for pair in times.windows(2) {
        assert!(system_time_to_filetime(pair[0]) <= system_time_to_filetime(pair[1]));
    }
}

#[test]
fn times_out_of_range_are_refused() {
    assert_eq!(SystemTime::new(0, 1_000_000_000), None);
    assert!(SystemTime::new(i64::MAX, 999_999_999).is_some());
    assert!(SystemTime::new(i64::MIN, 0).is_some());
}

#[test]
fn late_times_have_no_filetime() {
    assert!(at(1_833_029_933_770, 955_161_599).is_valid());
    assert!(!at(1_833_029_933_770, 955_161_600).is_valid());
    assert!(!at(i64::MAX, 0).is_valid());
    assert!(at(i64::MIN, 0).is_valid());
    assert_eq!(system_time_to_filetime(at(1_833_029_933_770, 955_161_599)), u64::MAX);
}

#[test]
fn parts_of_a_time_are_kept() {
    assert_eq!(at(-3, 7).secs(), -3);
    assert_eq!(at(-3, 7).subsec_nanos(), 7);
}

#[test]
fn clock_times_are_converted() {
    let clock = UNIX_EPOCH + Duration::new(1_700_000_000, 123_456_700);
    assert_eq!(SystemTime::from_clock(clock), Some(at(1_700_000_000, 123_456_700)));
    assert_eq!(at(1_700_000_000, 123_456_700).to_clock(), Some(clock));
}

#[test]
fn clock_times_before_epoch_are_converted() {
    let clock = UNIX_EPOCH - Duration::new(1, 500_000_000);
    assert_eq!(SystemTime::from_clock(clock), Some(at(-2, 500_000_000)));
    assert_eq!(at(-2, 500_000_000).to_clock(), Some(clock));
    let whole = UNIX_EPOCH - Duration::new(3, 0);
    assert_eq!(SystemTime::from_clock(whole), Some(at(-3, 0)));
    assert_eq!(at(-3, 0).to_clock(), Some(whole));
}

#[test]
fn clock_times_survive_a_round_trip() {
    for clock in [
        UNIX_EPOCH,
        UNIX_EPOCH + Duration::new(1_700_000_000, 123_456_789),
        UNIX_EPOCH - Duration::new(5, 987_654_321),
        UNIX_EPOCH - Duration::new(11_644_473_599, 0),
    ] {
        assert_eq!(SystemTime::from_clock(clock).unwrap().to_clock(), Some(clock));
    }
}

#[test]
fn distances_are_signed() {
    assert_eq!(at(5, 6).distance(), Ok((5, 6)));
    assert_eq!(at(-2, 500_000_000).distance(), Err((1, 500_000_000)));
    assert_eq!(at(-3, 0).distance(), Err((3, 0)));
    assert_eq!(SystemTime::from_distance(Err((0, 0))), Some(at(0, 0)));
    assert_eq!(SystemTime::from_distance(Err((0, 1))), Some(at(-1, 999_999_999)));
    assert_eq!(SystemTime::from_distance(Ok((u64::MAX, 0))), None);
    assert_eq!(SystemTime::from_distance(Err((u64::MAX, 0))), None);
    assert_eq!(SystemTime::from_distance(Err((u64::MAX, 1))), None);
    assert_eq!(SystemTime::from_distance(Err((0x8000_0000_0000_0000, 0))), Some(at(i64::MIN, 0)));
}
