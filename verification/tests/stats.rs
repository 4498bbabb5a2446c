use naps::stats::Clock;
use naps::stats::HumanFriendlyBytes;

#[test]
fn as_time_format() {
    let pairs = vec![
        (5_u64, "0:00:05"),
        (60_u64, "0:01:00"),
        (154_u64, "0:02:34"),
        (3603_u64, "1:00:03"),
    ];

    for (input, output) in pairs {
        assert_eq!(input.as_clock().as_str(), output);
    }
}

#[test]
fn as_hf_bytes_format() {
    let pairs: Vec<(usize, &str)> = vec![
        (1023, "1023 B"),
        (1025, "1 KB"),
        (usize::pow(1024, 2), "1 MB"),
        (usize::pow(1024, 3), "1 GB"),
    ];

    for (input, output) in pairs {
        assert_eq!(input.as_hf_bytes(), output);
    }
}

#[test]
fn clock_pads_minutes_and_seconds_only() {
    assert_eq!(0_u64.as_clock(), "0:00:00");
    assert_eq!(59_u64.as_clock(), "0:00:59");
    assert_eq!(3599_u64.as_clock(), "0:59:59");
    assert_eq!(3600_u64.as_clock(), "1:00:00");
    assert_eq!(36_000_u64.as_clock(), "10:00:00");
    assert_eq!(360_000_u64.as_clock(), "100:00:00");
    assert_eq!(u64::MAX.as_clock(), "5124095576030431:00:15");
}

#[test]
fn bytes_take_the_largest_unit_they_fill() {
    assert_eq!(0_usize.as_hf_bytes(), "0 B");
    assert_eq!(1_usize.as_hf_bytes(), "1 B");
    assert_eq!(1024_usize.as_hf_bytes(), "1 KB");
    assert_eq!(2047_usize.as_hf_bytes(), "1 KB");
    assert_eq!(2048_usize.as_hf_bytes(), "2 KB");
    assert_eq!((1024 * 1024 - 1_usize).as_hf_bytes(), "1023 KB");
    assert_eq!((1024 * 1024 * 1024 - 1_usize).as_hf_bytes(), "1023 MB");
    assert_eq!((5 * 1024 * 1024 * 1024_usize).as_hf_bytes(), "5 GB");
    assert_eq!((4096 * 1024 * 1024 * 1024_usize).as_hf_bytes(), "4096 GB");
}
