use sysfetch::text::{format_memory, format_uptime, get_disk_usage, push_decimal, DiskSpace};

const GB: u64 = 1073741824;

#[test]
fn uptime_zero() {
    assert_eq!(format_uptime(0), "0d 0h 0m");
}

#[test]
fn uptime_drops_seconds() {
    assert_eq!(format_uptime(90061), "1d 1h 1m");
}

#[test]
fn uptime_wraps_hours_and_minutes() {
    assert_eq!(format_uptime(59), "0d 0h 0m");
    assert_eq!(format_uptime(3599), "0d 0h 59m");
    assert_eq!(format_uptime(86399), "0d 23h 59m");
    assert_eq!(format_uptime(86400 * 12 + 3600 * 5 + 60 * 7), "12d 5h 7m");
}

#[test]
fn uptime_largest() {
    assert_eq!(format_uptime(u64::MAX), "213503982334601d 7h 0m");
}

#[test]
fn memory_one_megabyte() {
    assert_eq!(format_memory(0, 1048576), "0MB / 1MB");
}

#[test]
fn memory_truncates_to_whole_megabytes() {
    assert_eq!(format_memory(1048575, 3 * 1048576 + 1048575), "0MB / 3MB");
    assert_eq!(format_memory(8 * 1073741824, 16 * 1073741824), "8192MB / 16384MB");
}

#[test]
fn disk_none() {
    assert_eq!(get_disk_usage(&Vec::new()), "No disk data available");
}

#[test]
fn disk_seventy_of_hundred() {
    let disks = vec![DiskSpace { total_bytes: 100 * GB, available_bytes: 30 * GB }];
    assert_eq!(get_disk_usage(&disks), "70GB / 100GB");
}

#[test]
fn disk_uses_first_only() {
    let disks = vec![
        DiskSpace { total_bytes: 500 * GB + 7, available_bytes: 120 * GB + GB / 2 },
        DiskSpace { total_bytes: 10 * GB, available_bytes: 0 },
    ];
    assert_eq!(get_disk_usage(&disks), "380GB / 500GB");
}

#[test]
fn disk_available_above_total() {
    let disks = vec![DiskSpace { total_bytes: 5 * GB, available_bytes: 9 * GB }];
    assert_eq!(get_disk_usage(&disks), "0GB / 5GB");
}

#[test]
fn formatters_repeat_identically() {
    assert_eq!(format_uptime(123456), format_uptime(123456));
    assert_eq!(format_memory(5 << 20, 9 << 20), format_memory(5 << 20, 9 << 20));
    let disks = vec![DiskSpace { total_bytes: 100 * GB, available_bytes: 30 * GB }];
    assert_eq!(get_disk_usage(&disks), get_disk_usage(&disks));
}

#[test]
fn decimal_digits() {
    let mut s = String::from("n=");
    push_decimal(&mut s, 0);
    push_decimal(&mut s, 1234567890);
    push_decimal(&mut s, u64::MAX);
    assert_eq!(s, "n=0123456789018446744073709551615");
}
