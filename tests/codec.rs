use syslatency::codec::{RECORD_SIZE, COMMAND_OFFSET};
use syslatency::{decode, encode, DecodeError, TraceEvent};

fn record(pid: u32, uid: u32, cgid: u64, nr: u32, latency: u64, comm: &[u8]) -> Vec<u8> {
    let mut b = Vec::new();
    b.extend_from_slice(&pid.to_le_bytes());
    b.extend_from_slice(&uid.to_le_bytes());
    b.extend_from_slice(&cgid.to_le_bytes());
    b.extend_from_slice(&nr.to_le_bytes());
    b.extend_from_slice(&[0, 0, 0, 0]);
    b.extend_from_slice(&latency.to_le_bytes());
    let mut c = [0u8; 32];
    c[..comm.len()].copy_from_slice(comm);
    b.extend_from_slice(&c);
    b
}

#[test]
fn decode_reads_every_field() {
    let b = record(1234, 1000, 0x0102_0304_0506_0708, 257, 1_500_000_000, b"bash");
    let e = decode(&b).unwrap();
    assert_eq!(e.pid, 1234);
    assert_eq!(e.uid, 1000);
    assert_eq!(e.cgroup_id, 0x0102_0304_0506_0708);
    assert_eq!(e.syscall_number, 257);
    assert_eq!(e.latency_nanoseconds, 1_500_000_000);
    assert_eq!(e.command_name, "bash");
}

#[test]
fn decode_extreme_values() {
    let b = record(u32::MAX, u32::MAX, u64::MAX, u32::MAX, u64::MAX, b"x");
    let e = decode(&b).unwrap();
    assert_eq!(e.pid, u32::MAX);
    assert_eq!(e.cgroup_id, u64::MAX);
    assert_eq!(e.latency_nanoseconds, u64::MAX);
}

#[test]
fn decode_short_buffers_fail() {
    for len in [0usize, 1, 32, RECORD_SIZE - 1] {
        let b = vec![b'a'; len];
        assert_eq!(decode(&b), Err(DecodeError::ShortBuffer));
    }
}

#[test]
fn decode_longer_buffer_reads_the_record() {
    let mut b = record(7, 8, 9, 10, 11, b"sh");
    b.extend_from_slice(&[0xff; 8]);
    let e = decode(&b).unwrap();
    assert_eq!(e.pid, 7);
    assert_eq!(e.command_name, "sh");
}

#[test]
fn decode_invalid_utf8_fails() {
    let b = record(1, 2, 3, 4, 5, &[b'a', 0xff, b'b']);
    assert_eq!(decode(&b), Err(DecodeError::MalformedEncoding));
    let b = record(1, 2, 3, 4, 5, &[0xe2, 0x82]);
    assert_eq!(decode(&b), Err(DecodeError::MalformedEncoding));
}

#[test]
fn decode_full_width_command() {
    let comm = [b'z'; 32];
    let b = record(1, 2, 3, 4, 5, &comm);
    let e = decode(&b).unwrap();
    assert_eq!(e.command_name.len(), 32);
    assert_eq!(encode(&e), b);
}

#[test]
fn decode_keeps_inner_nul_and_multibyte_text() {
    let b = record(1, 2, 3, 4, 5, "a\0é".as_bytes());
    let e = decode(&b).unwrap();
    assert_eq!(e.command_name, "a\0é");
}

#[test]
fn encode_then_decode_round_trip() {
    let b = record(42, 0, 9999, 0, 123_456_789, b"kworker/0:1");
    assert_eq!(b.len(), RECORD_SIZE);
    let e = decode(&b).unwrap();
    assert_eq!(encode(&e), b);
}

#[test]
fn encode_layout() {
    let e = TraceEvent {
        pid: 0x0403_0201,
        uid: 5,
        cgroup_id: 6,
        syscall_number: 7,
        latency_nanoseconds: 8,
        command_name: "ab".to_string(),
    };
    let b = encode(&e);
    assert_eq!(b.len(), RECORD_SIZE);
    assert_eq!(&b[0..4], &[1, 2, 3, 4]);
    assert_eq!(b[4], 5);
    assert_eq!(b[8], 6);
    assert_eq!(b[16], 7);
    assert_eq!(&b[20..24], &[0, 0, 0, 0]);
    assert_eq!(b[24], 8);
    assert_eq!(&b[COMMAND_OFFSET..COMMAND_OFFSET + 3], b"ab\0");
    assert_eq!(decode(&b), Ok(e));
}
