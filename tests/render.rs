use syslatency::render::{decimal_text, seconds_from_nanos, signed_decimal_text};
use syslatency::{header_line, lost_line, render, SyscallCatalog, TraceEvent};

fn event(nr: u32, latency: u64, comm: &str) -> TraceEvent {
    TraceEvent {
        pid: 1234,
        uid: 0,
        cgroup_id: 9999,
        syscall_number: nr,
        latency_nanoseconds: latency,
        command_name: comm.to_string(),
    }
}

#[test]
fn render_read_event() {
    let catalog = SyscallCatalog::new();
    let nr = catalog.numbers_for("read").unwrap()[0];
    let line = render(&event(nr, 1_500_000_000, "bash"), &catalog);
    for part in ["1234", "0", "9999", "read", "1.500000", "bash"] {
        assert!(line.contains(part), "{} lacks {}", line, part);
    }
    assert_eq!(
        line,
        format!("{:8} {:8} {:8} {:32} {:8} {:16}", 1234, 0, 9999, "read", "1.50000000", "bash")
    );
}

#[test]
fn render_unknown_syscall() {
    let catalog = SyscallCatalog::new();
    let line = render(&event(9999, 0, "init"), &catalog);
    assert!(line.contains("unknown"));
    assert!(line.contains("0.00000000"));
}

#[test]
fn render_wide_values_are_not_cut() {
    let catalog = SyscallCatalog::new();
    let mut e = event(0, 0, "a-rather-long-command-name");
    e.cgroup_id = 123_456_789_012;
    let line = render(&e, &catalog);
    assert!(line.starts_with("    1234        0 123456789012 read"));
    assert!(line.ends_with(" a-rather-long-command-name"));
}

#[test]
fn header_columns() {
    assert_eq!(
        header_line(),
        format!(
            "{:8} {:8} {:8} {:32} {:16} {:16}",
            "PID", "UID", "CGROUP_ID", "SYSCALL", "LATENCY", "COMMAND"
        )
    );
}

#[test]
fn seconds_exact_values() {
    assert_eq!(seconds_from_nanos(1_500_000_000), "1.50000000");
    assert_eq!(seconds_from_nanos(0), "0.00000000");
    assert_eq!(seconds_from_nanos(4), "0.00000000");
    assert_eq!(seconds_from_nanos(5), "0.00000001");
    assert_eq!(seconds_from_nanos(9), "0.00000001");
    assert_eq!(seconds_from_nanos(12), "0.00000001");
    assert_eq!(seconds_from_nanos(999_999_994), "0.99999999");
    assert_eq!(seconds_from_nanos(999_999_999), "1.00000000");
    assert_eq!(seconds_from_nanos(61_000_000_010), "61.00000001");
    assert_eq!(seconds_from_nanos(u64::MAX), "18446744073.70955162");
}

#[test]
fn decimal_values() {
    assert_eq!(decimal_text(0), "0");
    assert_eq!(decimal_text(10), "10");
    assert_eq!(decimal_text(u64::MAX), "18446744073709551615");
    assert_eq!(signed_decimal_text(-1), "-1");
    assert_eq!(signed_decimal_text(i32::MIN), "-2147483648");
    assert_eq!(signed_decimal_text(2), "2");
}

#[test]
fn lost_line_names_origin_and_count() {
    let line = lost_line(2, 7);
    assert_eq!(line, "Lost event (CPU: 2, COUNT: 7)");
    assert!(line.contains('2') && line.contains('7'));
}
