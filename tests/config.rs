use syslatency::config::NO_SYSCALL_FILTER;
use syslatency::{configure, FilterConfig, ProbeParams, SyscallCatalog, SyscallError};

#[test]
fn configure_without_syscall() {
    let catalog = SyscallCatalog::new();
    let c = configure(&catalog, 4321, true, None).unwrap();
    assert_eq!(c, FilterConfig { self_pid: 4321, container_only: true, target_syscall: None });
    assert_eq!(
        c.probe_params(),
        ProbeParams { pid_self: 4321, only_trace_container: 1, trace_syscall: NO_SYSCALL_FILTER }
    );
}

#[test]
fn configure_with_syscall() {
    let catalog = SyscallCatalog::new();
    let c = configure(&catalog, 10, false, Some("openat")).unwrap();
    assert_eq!(c.target_syscall, Some(257));
    assert_eq!(
        c.probe_params(),
        ProbeParams { pid_self: 10, only_trace_container: 0, trace_syscall: 257 }
    );
}

#[test]
fn configure_picks_first_of_several_numbers() {
    let catalog = SyscallCatalog::new();
    let c = configure(&catalog, 10, false, Some("readv")).unwrap();
    assert_eq!(c.target_syscall, Some(19));
}

#[test]
fn configure_unknown_syscall_fails() {
    let catalog = SyscallCatalog::new();
    assert_eq!(
        configure(&catalog, 10, true, Some("frobnicate")),
        Err(SyscallError::UnknownSyscallName)
    );
}

#[test]
fn probe_params_bytes() {
    let p = ProbeParams { pid_self: 0x0102_0304, only_trace_container: 1, trace_syscall: NO_SYSCALL_FILTER };
    assert_eq!(p.to_bytes(), vec![4, 3, 2, 1, 1, 0, 0, 0, 0xff, 0xff, 0xff, 0xff]);
    let p = ProbeParams { pid_self: 7, only_trace_container: 0, trace_syscall: 257 };
    assert_eq!(p.to_bytes(), vec![7, 0, 0, 0, 0, 0, 0, 0, 1, 1, 0, 0]);
}
