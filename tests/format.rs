use ccache_stats_reader::text::{decimal_text, parse_u64, trim_line_end_text};
use ccache_stats_reader::value_format::timestamp_text_with_local;
use ccache_stats_reader::CacheField;

#[test]
fn test_cache_field_metadata() {
    assert_eq!(CacheField::Sentinel.format_value(0), "0");
    assert_eq!(CacheField::TotalSize.format_value(0), "0 Kb");
    assert_eq!(CacheField::TotalSize.format_value(100), "100 Kb");
    assert_eq!(CacheField::TotalSize.format_value(1_000), "1000 Kb");
    assert_eq!(CacheField::TotalSize.format_value(10_000), "10000 Kb");
    assert_eq!(CacheField::TotalSize.format_value(15_000), "14.65 Mb");
    assert_eq!(CacheField::TotalSize.format_value(150_000), "146.48 Mb");
    assert_eq!(CacheField::TotalSize.format_value(1_500_000), "1464.84 Mb");
    assert_eq!(CacheField::TotalSize.format_value(15_000_000), "14.31 Gb");
}

#[test]
fn size_scale_boundaries() {
    assert_eq!(CacheField::TotalSize.format_value(10_239), "10239 Kb");
    assert_eq!(CacheField::TotalSize.format_value(10_240), "10.00 Mb");
    assert_eq!(CacheField::TotalSize.format_value(10_485_759), "10240.00 Mb");
    assert_eq!(CacheField::TotalSize.format_value(10_485_760), "10.00 Gb");
}

#[test]
fn size_rounds_half_to_even() {
    // 10_245 / 1024 = 10.0048828125 -> 10.00; 10_250 / 1024 = 10.009765625 -> 10.01
    assert_eq!(CacheField::TotalSize.format_value(10_245), "10.00 Mb");
    assert_eq!(CacheField::TotalSize.format_value(10_250), "10.01 Mb");
    // 10_368 / 1024 = 10.125 exactly: a tie, kept at the even 10.12
    assert_eq!(CacheField::TotalSize.format_value(10_368), "10.12 Mb");
    // 10_624 / 1024 = 10.375 exactly: a tie, raised to the even 10.38
    assert_eq!(CacheField::TotalSize.format_value(10_624), "10.38 Mb");
    // 10_485_749 / 1024 = 10239.989...; 10_485_755 / 1024 = 10239.995... rounds over
    assert_eq!(CacheField::TotalSize.format_value(10_485_749), "10239.99 Mb");
    assert_eq!(CacheField::TotalSize.format_value(10_485_755), "10240.00 Mb");
}

#[test]
fn size_of_the_largest_value() {
    assert_eq!(CacheField::TotalSize.format_value(u64::MAX), "17592186044416.00 Gb");
}

#[test]
fn plain_fields_render_the_integer() {
    assert_eq!(CacheField::CacheHitDir.format_value(42), "42");
    assert_eq!(CacheField::NumFiles.format_value(u64::MAX), "18446744073709551615");
}

#[test]
fn timestamp_with_given_local_text() {
    let z = CacheField::ZeroTimeStamp;
    assert_eq!(z.format_value_with_local(5, Some("then".to_string())), "then");
    assert_eq!(z.format_value_with_local(5, None), "5 (ts)");
    assert_eq!(z.format_value_with_local(u64::MAX, Some("then".to_string())), "18446744073709551615 (ts)");
    assert_eq!(CacheField::TotalSize.format_value_with_local(100, Some("x".to_string())), "100 Kb");
    assert_eq!(timestamp_text_with_local(0, None), "0 (ts)");
}

#[test]
fn timestamp_out_of_range_falls_back() {
    assert_eq!(CacheField::ZeroTimeStamp.format_value(u64::MAX), "18446744073709551615 (ts)");
    // beyond chrono's range but within i64
    assert_eq!(CacheField::ZeroTimeStamp.format_value(i64::MAX as u64), "9223372036854775807 (ts)");
}

#[test]
fn timestamp_is_rendered_by_the_local_clock() {
    let text = CacheField::ZeroTimeStamp.format_value(86_400 * 365);
    assert_ne!(text, "31536000 (ts)");
    assert!(text.starts_with("1970") || text.starts_with("1971"), "{}", text);
}

#[test]
fn decimal_numerals() {
    assert_eq!(decimal_text(0), "0");
    assert_eq!(decimal_text(9), "9");
    assert_eq!(decimal_text(10), "10");
    assert_eq!(decimal_text(1_234_567_890), "1234567890");
}

#[test]
fn parse_u64_text() {
    assert_eq!(parse_u64("0"), Some(0));
    assert_eq!(parse_u64("00042"), Some(42));
    assert_eq!(parse_u64("+7"), Some(7));
    assert_eq!(parse_u64("18446744073709551615"), Some(u64::MAX));
    assert_eq!(parse_u64("18446744073709551616"), None);
    assert_eq!(parse_u64(""), None);
    assert_eq!(parse_u64("+"), None);
    assert_eq!(parse_u64("-1"), None);
    assert_eq!(parse_u64(" 1"), None);
    assert_eq!(parse_u64("1 "), None);
    assert_eq!(parse_u64("12a"), None);
    assert_eq!(parse_u64("١"), None);
}

#[test]
fn trimming_line_ends() {
    assert_eq!(trim_line_end_text("12\n"), "12");
    assert_eq!(trim_line_end_text("12\r\n"), "12");
    assert_eq!(trim_line_end_text("12"), "12");
    assert_eq!(trim_line_end_text("12\r"), "12\r");
    assert_eq!(trim_line_end_text("12\n\n"), "12\n");
    assert_eq!(trim_line_end_text("\n"), "");
}
