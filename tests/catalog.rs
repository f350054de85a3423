use syslatency::syscalls::CATALOG_END;
use syslatency::{SyscallCatalog, SyscallError};

#[test]
fn name_for_known_numbers() {
    let catalog = SyscallCatalog::new();
    assert_eq!(catalog.name_for(0), "read");
    assert_eq!(catalog.name_for(1), "write");
    assert_eq!(catalog.name_for(59), "execve");
    assert_eq!(catalog.name_for(334), "rseq");
    assert_eq!(catalog.name_for(435), "clone3");
    assert_eq!(catalog.name_for(515), "readv");
}

#[test]
fn name_for_absent_numbers_is_unknown() {
    let catalog = SyscallCatalog::new();
    for nr in [335u32, 400, 423, 463, 511, CATALOG_END, 9999, u32::MAX] {
        assert_eq!(catalog.name_for(nr), "unknown");
    }
}

#[test]
fn numbers_for_single_number() {
    let catalog = SyscallCatalog::new();
    assert_eq!(catalog.numbers_for("read"), Ok(vec![0]));
    assert_eq!(catalog.numbers_for("openat2"), Ok(vec![437]));
}

#[test]
fn numbers_for_several_numbers_ascending() {
    let catalog = SyscallCatalog::new();
    assert_eq!(catalog.numbers_for("readv"), Ok(vec![19, 515]));
    assert_eq!(catalog.numbers_for("execve"), Ok(vec![59, 520]));
}

#[test]
fn numbers_for_is_stable_across_calls() {
    let catalog = SyscallCatalog::new();
    let first = catalog.numbers_for("pwritev2");
    let second = catalog.numbers_for("pwritev2");
    assert_eq!(first, Ok(vec![328, 547]));
    assert_eq!(first, second);
}

#[test]
fn numbers_for_unknown_name() {
    let catalog = SyscallCatalog::new();
    assert_eq!(catalog.numbers_for("no_such_call"), Err(SyscallError::UnknownSyscallName));
    assert_eq!(catalog.numbers_for(""), Err(SyscallError::UnknownSyscallName));
    assert_eq!(catalog.numbers_for("Read"), Err(SyscallError::UnknownSyscallName));
    assert_eq!(catalog.numbers_for("unknown"), Err(SyscallError::UnknownSyscallName));
}

#[test]
fn every_name_resolves_back_to_its_number() {
    let catalog = SyscallCatalog::new();
    for nr in 0..CATALOG_END {
        let name = catalog.name_for(nr);
        if name != "unknown" {
            let numbers = catalog.numbers_for(name).unwrap();
            assert!(numbers.contains(&nr));
            assert!(numbers.windows(2).all(|w| w[0] < w[1]));
        }
    }
}
