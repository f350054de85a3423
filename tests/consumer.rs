use syslatency::consumer::POLL_INTERVAL_MS;
use syslatency::{encode, handle_lost, handle_record, next_state, ConsumerState, Emit, SyscallCatalog, TraceEvent};

fn sample() -> Vec<u8> {
    encode(&TraceEvent {
        pid: 1234,
        uid: 0,
        cgroup_id: 9999,
        syscall_number: 0,
        latency_nanoseconds: 1_500_000_000,
        command_name: "bash".to_string(),
    })
}

#[test]
fn record_renders_a_trace_line() {
    let catalog = SyscallCatalog::new();
    match handle_record(&catalog, &sample()) {
        Emit::Trace(line) => {
            assert!(line.contains("1234") && line.contains("read") && line.contains("bash"));
        }
        other => panic!("unexpected {:?}", other),
    }
}

#[test]
fn bad_records_give_diagnostics() {
    let catalog = SyscallCatalog::new();
    assert_eq!(
        handle_record(&catalog, &[1, 2, 3]),
        Emit::Diagnostic("failed to decode event: buffer shorter than one record".to_string())
    );
    let mut b = sample();
    b[40] = 0xff;
    assert_eq!(
        handle_record(&catalog, &b),
        Emit::Diagnostic("failed to decode event: command name is not valid UTF-8".to_string())
    );
}

#[test]
fn lost_events_do_not_interrupt_rendering() {
    let catalog = SyscallCatalog::new();
    let state = ConsumerState::Polling;
    match handle_lost(2, 7) {
        Emit::Diagnostic(line) => assert!(line.contains('2') && line.contains('7')),
        other => panic!("unexpected {:?}", other),
    }
    let state = next_state(state, true);
    assert_eq!(state, ConsumerState::Polling);
    assert!(matches!(handle_record(&catalog, &sample()), Emit::Trace(_)));
}

#[test]
fn a_bad_record_keeps_the_loop_polling() {
    let catalog = SyscallCatalog::new();
    assert!(matches!(handle_record(&catalog, &[]), Emit::Diagnostic(_)));
    assert_eq!(next_state(ConsumerState::Polling, true), ConsumerState::Polling);
    assert!(matches!(handle_record(&catalog, &sample()), Emit::Trace(_)));
}

#[test]
fn poll_failure_terminates() {
    assert_eq!(next_state(ConsumerState::Polling, false), ConsumerState::Terminated);
    assert_eq!(next_state(ConsumerState::Terminated, true), ConsumerState::Terminated);
    assert_eq!(next_state(ConsumerState::Terminated, false), ConsumerState::Terminated);
}

#[test]
fn poll_interval_is_a_tenth_of_a_second() {
    assert_eq!(POLL_INTERVAL_MS, 100);
}
