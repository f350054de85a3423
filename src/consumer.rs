use vstd::prelude::*;
use vstd::string::StringExecFns;
use vstd::utf8::{decode_utf8, valid_utf8};
use crate::codec::{command_bytes, decode, decode_error_text, field, DecodeError, RECORD_SIZE};
use crate::render::{line_of, lost_line, lost_text, render};
use crate::syscalls::SyscallCatalog;

verus! {

/// Milliseconds that one poll waits at most for data.
pub const POLL_INTERVAL_MS: u64 = 100;

/// The two states of the polling loop.
#[derive(Clone, Copy, Debug, PartialEq, Eq, Structural)]
pub enum ConsumerState {
    Polling,
    Terminated,
}

/// A line for one of the two output streams.
#[derive(Clone, Debug, PartialEq, Eq)]
pub enum Emit {
    /// A trace line, for standard output.
    Trace(String),
    /// A diagnostic, for standard error.
    Diagnostic(String),
}

/// The diagnostic for a record that did not decode.
pub open spec fn decode_failure_text(e: DecodeError) -> Seq<char> {
    "failed to decode event: "@ + decode_error_text(e)
}

/// The trace line of the record `b`, which decodes.
pub open spec fn record_line(b: Seq<u8>) -> Seq<char> {
    line_of(
        field(b, 0, 4),
        field(b, 4, 4),
        field(b, 8, 8),
        field(b, 16, 4) as u32,
        field(b, 24, 8),
        decode_utf8(command_bytes(b)),
    )
}

/// What a received record leads to: its trace line, or a diagnostic where it
/// does not decode.
pub open spec fn record_outcome(b: Seq<u8>, out: Emit) -> bool {
    if b.len() < RECORD_SIZE {
        out matches Emit::Diagnostic(s) && s@ == decode_failure_text(DecodeError::ShortBuffer)
    } else if !valid_utf8(command_bytes(b)) {
        out matches Emit::Diagnostic(s) && s@ == decode_failure_text(DecodeError::MalformedEncoding)
    } else {
        out matches Emit::Trace(s) && s@ == record_line(b)
    }
}

/// Decodes and renders one received record. A record that does not decode
/// gives a diagnostic; either way the loop goes on.
pub fn handle_record(catalog: &SyscallCatalog, data: &[u8]) -> (r: Emit)
    ensures
        record_outcome(data@, r),
{
    match decode(data) {
        Ok(event) => Emit::Trace(render(&event, catalog)),
        Err(e) => {
            let mut s = String::new();
            s.append("failed to decode event: ");
            s.append(e.message());
            Emit::Diagnostic(s)
        },
    }
}

/// The diagnostic for `count` records lost on channel `origin`; it is advisory
/// and leaves the loop's state alone.
pub fn handle_lost(origin: i32, count: u64) -> (r: Emit)
    ensures
        r matches Emit::Diagnostic(s) && s@ == lost_text(origin, count),
{
    Emit::Diagnostic(lost_line(origin, count))
}

/// The state after one poll: a failed poll terminates the loop for good.
pub fn next_state(state: ConsumerState, poll_ok: bool) -> (r: ConsumerState)
    ensures
        r == (if state == ConsumerState::Polling && poll_ok {
            ConsumerState::Polling
        } else {
            ConsumerState::Terminated
        }),
{
    match state {
        ConsumerState::Polling => if poll_ok {
            ConsumerState::Polling
        } else {
            ConsumerState::Terminated
        },
        ConsumerState::Terminated => ConsumerState::Terminated,
    }
}

} // verus!
