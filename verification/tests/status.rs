use jayrc::status::{
    cpu_aggregate_hundredths, format_cpu_field, format_decimal, format_fixed1, format_status,
    mem_display_tenths,
};

const SEP: &str = " <span color=\"#333333\">|</span> ";

#[test]
fn decimal_rendering() {
    assert_eq!(format_decimal(0), "0");
    assert_eq!(format_decimal(7), "7");
    assert_eq!(format_decimal(10), "10");
    assert_eq!(format_decimal(1234567890), "1234567890");
    assert_eq!(format_decimal(u64::MAX), "18446744073709551615");
}

#[test]
fn one_decimal_rendering() {
    assert_eq!(format_fixed1(20), "2.0");
    assert_eq!(format_fixed1(80), "8.0");
    assert_eq!(format_fixed1(0), "0.0");
    assert_eq!(format_fixed1(1035), "103.5");
}

#[test]
fn cpu_field_is_five_wide_with_two_decimals() {
    assert_eq!(format_cpu_field(80), " 0.80");
    assert_eq!(format_cpu_field(0), " 0.00");
    assert_eq!(format_cpu_field(999), " 9.99");
    assert_eq!(format_cpu_field(1000), "10.00");
    assert_eq!(format_cpu_field(1234), "12.34");
    // wider values are not truncated
    assert_eq!(format_cpu_field(123456), "1234.56");
}

#[test]
fn status_line_formatting() {
    // used 2048 MB of total 8192 MB displays as 2.0/8.0; two cores at
    // 50.0% and 30.0% aggregate to 0.80 core equivalents
    let used = mem_display_tenths(2048 * 1024 * 1024);
    let total = mem_display_tenths(8192 * 1024 * 1024);
    assert_eq!(used, 20);
    assert_eq!(total, 80);
    let cpu = cpu_aggregate_hundredths(&vec![5000, 3000]);
    assert_eq!(cpu, 80);
    let line = format_status(used, total, cpu, "2026-10-12 12:00:02");
    assert_eq!(
        line,
        format!("MEM: 2.0/8.0{SEP}CPU:  0.80{SEP}2026-10-12 12:00:02"),
    );
    assert!(line.contains("MEM: 2.0/8.0"));
    assert!(line.contains("CPU:  0.80"));
}

#[test]
fn memory_conversion_rounds_to_the_nearest_tenth() {
    assert_eq!(mem_display_tenths(0), 0);
    assert_eq!(mem_display_tenths(1024 * 1024 * 1024), 10);
    // half a tenth rounds up
    assert_eq!(mem_display_tenths(53687092), 1);
    assert_eq!(mem_display_tenths(53687091), 0);
    // no overflow near the top of the range
    assert_eq!(
        mem_display_tenths(u64::MAX),
        ((u64::MAX as u128 * 10 + 536870912) / 1073741824) as u64,
    );
}

#[test]
fn cpu_aggregation_is_sum_over_one_hundred() {
    assert_eq!(cpu_aggregate_hundredths(&vec![]), 0);
    assert_eq!(cpu_aggregate_hundredths(&vec![10000]), 100);
    assert_eq!(cpu_aggregate_hundredths(&vec![10000, 10000, 10000, 10000]), 400);
    assert_eq!(cpu_aggregate_hundredths(&vec![5000, 3000]), 80);
    // rounding half up at the hundredth
    assert_eq!(cpu_aggregate_hundredths(&vec![49, 1]), 1);
    assert_eq!(cpu_aggregate_hundredths(&vec![49]), 0);
}

#[test]
fn status_line_embeds_a_live_timestamp() {
    // the shell renders the local time and hands it through verbatim
    let ts = chrono::Local::now().format("%Y-%m-%d %H:%M:%S").to_string();
    let line = format_status(20, 80, 80, &ts);
    assert!(line.starts_with(&format!("MEM: 2.0/8.0{SEP}CPU:  0.80{SEP}")));
    let tail = &line[line.rfind("</span> ").unwrap() + "</span> ".len()..];
    assert_eq!(tail, ts);
    assert_eq!(tail.len(), 19);
    assert_eq!(&tail[4..5], "-");
    assert_eq!(&tail[7..8], "-");
    assert_eq!(&tail[10..11], " ");
    assert_eq!(&tail[13..14], ":");
    assert_eq!(&tail[16..17], ":");
    assert!(tail.chars().all(|c| c.is_ascii_digit() || c == '-' || c == ' ' || c == ':'));
}
