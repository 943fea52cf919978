use dashboard::metrics::{bounded_push, compute_rate};
use dashboard::resources::{
    disk_total_usage, get_total_received, get_total_transmitted, saturating_total, Resources,
    SystemReading,
};
use dashboard::util::{
    format_kilobytes, format_padded2, format_seconds, format_u64, used_as_percentage,
    used_percentage,
};

fn reading() -> SystemReading {
    SystemReading {
        hostname: "alpha".to_string(),
        total_memory: 16_000,
        used_memory: 4_000,
        used_swap: 10,
        total_swap: 100,
        cpu_usage: 1234,
        cpu_load_per_core: vec![100, 200, 300, 400],
        disk_names: vec!["sda".to_string(), "sdb".to_string()],
        disk_available: vec![500, 700],
        disk_total: vec![1000, 2000],
        uptime: 3661,
        os_version: "Linux 1.0".to_string(),
        kernel_version: "1.0".to_string(),
        load_avg_one: 50,
        load_avg_five: 75,
        load_avg_fifteen: 100,
        network_received: vec![10, 20],
        network_transmitted: vec![30, 40],
    }
}

#[test]
fn format_u64_decimal() {
    assert_eq!(format_u64(0), "0");
    assert_eq!(format_u64(7), "7");
    assert_eq!(format_u64(1234567890), "1234567890");
}

#[test]
fn format_padded2_pads_single_digits() {
    assert_eq!(format_padded2(0), "00");
    assert_eq!(format_padded2(9), "09");
    assert_eq!(format_padded2(10), "10");
    assert_eq!(format_padded2(123), "123");
}

#[test]
fn format_seconds_examples() {
    assert_eq!(format_seconds(59), "");
    assert_eq!(format_seconds(60), "01 minutes");
    assert_eq!(format_seconds(3600), "01 hours");
    assert_eq!(format_seconds(3661), "01 hours, 01 minutes");
    assert_eq!(format_seconds(90061), "01 days, 01 hours, 01 minutes");
    assert_eq!(
        format_seconds(2 * 86400 + 5 * 3600 + 10 * 60 + 5),
        "02 days, 05 hours, 10 minutes"
    );
    // A whole day has zero hours and minutes, so only the days appear.
    assert_eq!(format_seconds(86400), "01 days");
}

#[test]
fn format_kilobytes_units() {
    assert_eq!(format_kilobytes(0), "0 KB");
    assert_eq!(format_kilobytes(512), "512 KB");
    assert_eq!(format_kilobytes(1023), "1023 KB");
    assert_eq!(format_kilobytes(2048), "2.00 MB");
    assert_eq!(format_kilobytes(5632), "5.50 MB");
    assert_eq!(format_kilobytes(3 * 1024 * 1024), "3.00 GB");
    assert_eq!(format_kilobytes(3 * 1024 * 1024 * 1024), "3.00 TB");
}

#[test]
fn percentage_helpers() {
    assert_eq!(used_as_percentage(250, 1000), 25);
    assert_eq!(used_as_percentage(0, 1000), 0);
    assert_eq!(used_as_percentage(5, 0), 0);
    assert_eq!(used_percentage(25, 100), 75);
    assert_eq!(used_percentage(100, 100), 0);
}

#[test]
fn compute_rate_formula() {
    // 4 MB over one second is 3906 KB/s after truncation.
    assert_eq!(compute_rate(9_000_000, 5_000_000, 1000), 3906);
    // The same growth over two seconds halves the rate.
    assert_eq!(compute_rate(9_000_000, 5_000_000, 2000), 1953);
    // A counter that moved backwards counts as no growth.
    assert_eq!(compute_rate(100, 200, 1000), 0);
}

#[test]
fn bounded_push_evicts_oldest_first() {
    assert_eq!(bounded_push(&vec![1, 2, 3], 4, 3), vec![2, 3, 4]);
    assert_eq!(bounded_push(&vec![1, 2], 3, 3), vec![1, 2, 3]);
    assert_eq!(bounded_push(&vec![], 1, 3), vec![1]);
    assert_eq!(bounded_push(&vec![1, 2, 3], 4, 0), Vec::<u64>::new());
}

#[test]
fn saturating_sums() {
    assert_eq!(saturating_total(&vec![1, 2, 3]), 6);
    assert_eq!(saturating_total(&vec![]), 0);
    assert_eq!(saturating_total(&vec![u64::MAX, 5]), u64::MAX);
    assert_eq!(disk_total_usage(&vec![1000, 2000], &vec![500, 700]), (3000, 1200));
    assert_eq!(get_total_received(&vec![10, 20]), 30);
    assert_eq!(get_total_transmitted(&vec![30, 40]), 70);
}

#[test]
fn resources_assembled_from_reading() {
    let r = Resources::new(reading());
    assert_eq!(r.hostname, "alpha");
    assert_eq!(r.total_space, 3000);
    assert_eq!(r.available_space, 1200);
    assert_eq!(r.cpu_amount, 4);
    assert_eq!(r.bytes_received, 30);
    assert_eq!(r.bytes_transmitted, 70);
    assert_eq!(r.uptime, 3661);
}

#[test]
fn resources_refresh_updates_only_moving_fields() {
    let mut r = Resources::new(reading());
    let mut second = reading();
    second.hostname = "renamed".to_string();
    second.total_memory = 32_000;
    second.used_memory = 8_000;
    second.disk_available = vec![400, 600];
    second.disk_total = vec![9999];
    second.network_received = vec![100];
    second.uptime = 7200;
    r.refresh(second);
    // Moving fields follow the new reading.
    assert_eq!(r.used_memory, 8_000);
    assert_eq!(r.available_space, 1000);
    assert_eq!(r.bytes_received, 100);
    assert_eq!(r.uptime, 7200);
    // Identity and totals keep their startup values.
    assert_eq!(r.hostname, "alpha");
    assert_eq!(r.total_memory, 16_000);
    assert_eq!(r.total_space, 3000);
    assert_eq!(r.disk_total, vec![1000, 2000]);
}
