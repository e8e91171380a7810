use accel_reconciler::decimal::{i64_to_dec, u32_to_pad2, u64_to_dec, u64_to_pad4};
use accel_reconciler::logline::build_log_line;
use accel_reconciler::model::Acceleration;
use accel_reconciler::stamp::{render_timestamp, UtcTime};

fn reading(year: i32, month: u32, day: u32, hour: u32, minute: u32, second: u32) -> UtcTime {
    UtcTime {
        year,
        month,
        day,
        hour,
        minute,
        second,
    }
}

#[test]
fn decimal_rendering_exact() {
    assert_eq!(u64_to_dec(0), "0");
    assert_eq!(u64_to_dec(7), "7");
    assert_eq!(u64_to_dec(10), "10");
    assert_eq!(u64_to_dec(1000), "1000");
    assert_eq!(u64_to_dec(u64::MAX), "18446744073709551615");
    assert_eq!(i64_to_dec(0), "0");
    assert_eq!(i64_to_dec(1000), "1000");
    assert_eq!(i64_to_dec(-1), "-1");
    assert_eq!(i64_to_dec(-500), "-500");
    assert_eq!(i64_to_dec(i64::MAX), "9223372036854775807");
    assert_eq!(i64_to_dec(i64::MIN), "-9223372036854775808");
}

#[test]
fn padded_rendering_exact() {
    assert_eq!(u32_to_pad2(0), "00");
    assert_eq!(u32_to_pad2(7), "07");
    assert_eq!(u32_to_pad2(59), "59");
    assert_eq!(u64_to_pad4(0), "0000");
    assert_eq!(u64_to_pad4(42), "0042");
    assert_eq!(u64_to_pad4(999), "0999");
    assert_eq!(u64_to_pad4(2024), "2024");
    assert_eq!(u64_to_pad4(262143), "262143");
}

#[test]
fn timestamp_rendering_exact() {
    assert_eq!(
        render_timestamp(&reading(2024, 2, 3, 4, 5, 6)),
        "2024-02-03 04:05:06 UTC"
    );
    assert_eq!(
        render_timestamp(&reading(999, 12, 31, 23, 59, 59)),
        "0999-12-31 23:59:59 UTC"
    );
    assert_eq!(
        render_timestamp(&reading(-42, 1, 1, 0, 0, 0)),
        "-0042-01-01 00:00:00 UTC"
    );
    assert_eq!(
        render_timestamp(&reading(262143, 6, 7, 8, 9, 10)),
        "262143-06-07 08:09:10 UTC"
    );
}

#[test]
fn log_line_format_exact() {
    let ok = build_log_line(
        "2024-02-03 04:05:06 UTC".to_string(),
        "deadbeef",
        1000,
        true,
        "",
    );
    assert_eq!(
        ok,
        "2024-02-03 04:05:06 UTC: Success - txid: deadbeef, fee_delta: 1000\n"
    );
    let failed = build_log_line(
        "2024-02-03 04:05:06 UTC".to_string(),
        "deadbeef",
        -42,
        false,
        "fee too low",
    );
    assert_eq!(
        failed,
        "2024-02-03 04:05:06 UTC: Failed - txid: deadbeef, fee_delta: -42, error: fee too low\n"
    );
}

#[test]
fn command_args_shape() {
    let a = Acceleration {
        txid: Some("abc123".to_string()),
        fee_delta: Some(1000),
        event_type: "legacy".to_string(),
        pools: Vec::new(),
        effective_vsize: 0,
        effective_fee: 0,
        added: None,
        logged_at: String::new(),
    };
    let args = a.command_args().expect("eligible request gets a command");
    assert_eq!(args, vec!["abc123", "0.0", "1000"]);

    let b = Acceleration {
        fee_delta: Some(-500),
        ..a
    };
    let args = b.command_args().expect("eligible request gets a command");
    assert_eq!(args, vec!["abc123", "0.0", "-500"]);

    let c = Acceleration {
        txid: None,
        fee_delta: Some(1),
        event_type: "added".to_string(),
        pools: Vec::new(),
        effective_vsize: 0,
        effective_fee: 0,
        added: None,
        logged_at: String::new(),
    };
    assert!(c.command_args().is_none());
}
