use vstd::prelude::*;
use crate::codec::{le_bytes, push_zeros, write_le, zeros};
use crate::syscalls::{law_numbers_in_catalog_order, numbers_named, SyscallCatalog, SyscallError, CATALOG_END};

verus! {

/// The value of the probe's syscall filter that lets every syscall through.
pub const NO_SYSCALL_FILTER: i32 = -1;

/// The filter handed to the probe before it starts.
#[derive(Clone, Copy, Debug, PartialEq, Eq, Structural)]
pub struct FilterConfig {
    /// The tracer's own process, never traced.
    pub self_pid: u32,
    pub container_only: bool,
    /// The one syscall traced; `None` traces all.
    pub target_syscall: Option<i32>,
}

/// The three scalars written into the probe's read-only configuration.
#[derive(Clone, Copy, Debug, PartialEq, Eq, Structural)]
pub struct ProbeParams {
    pub pid_self: u32,
    pub only_trace_container: u8,
    pub trace_syscall: i32,
}

impl ProbeParams {
    /// The probe's read-only configuration block: `pid_self` in four bytes,
    /// `only_trace_container` in one, three bytes of padding, then
    /// `trace_syscall` in four, little-endian.
    pub fn to_bytes(&self) -> (r: Vec<u8>)
        ensures
            r@ == le_bytes(self.pid_self as nat, 4) + seq![self.only_trace_container] + zeros(3)
                + le_bytes(self.trace_syscall as u32 as nat, 4),
    {
        let mut out: Vec<u8> = Vec::new();
        write_le(&mut out, self.pid_self as u64, 4);
        out.push(self.only_trace_container);
        push_zeros(&mut out, 3);
        write_le(&mut out, self.trace_syscall as u32 as u64, 4);
        out
    }
}

/// The filter for these options: a named syscall is resolved to the first of
/// its numbers in catalog order.
pub open spec fn filter_for(self_pid: u32, container_only: bool, syscall: Option<Seq<char>>) -> Result<
    FilterConfig,
    SyscallError,
> {
    match syscall {
        None => Ok(FilterConfig { self_pid, container_only, target_syscall: None }),
        Some(name) => if numbers_named(name).len() == 0 {
            Err(SyscallError::UnknownSyscallName)
        } else {
            Ok(
                FilterConfig {
                    self_pid,
                    container_only,
                    target_syscall: Some(numbers_named(name)[0] as i32),
                },
            )
        },
    }
}

pub open spec fn opt_view(s: Option<&str>) -> Option<Seq<char>> {
    match s {
        Some(t) => Some(t@),
        None => None,
    }
}

/// Computes the probe filter from the options; an unknown syscall name is an
/// error, reported before anything reaches the probe.
pub fn configure(
    catalog: &SyscallCatalog,
    self_pid: u32,
    container_only: bool,
    syscall: Option<&str>,
) -> (r: Result<FilterConfig, SyscallError>)
    ensures
        r == filter_for(self_pid, container_only, opt_view(syscall)),
        r matches Ok(c) ==> (c.target_syscall matches Some(t) ==> 0 <= t < CATALOG_END),
{
    match syscall {
        None => Ok(FilterConfig { self_pid, container_only, target_syscall: None }),
        Some(name) => match catalog.numbers_for(name) {
            Err(e) => Err(e),
            Ok(numbers) => {
                proof {
                    law_numbers_in_catalog_order(name@);
                    assert(numbers_named(name@).contains(numbers@[0]));
                    crate::syscalls::lemma_no_name_past_end_contra(numbers@[0]);
                }
                Ok(
                    FilterConfig {
                        self_pid,
                        container_only,
                        target_syscall: Some(numbers[0] as i32),
                    },
                )
            },
        },
    }
}

impl FilterConfig {
    /// The scalars that the probe reads on every syscall exit.
    pub fn probe_params(&self) -> (r: ProbeParams)
        ensures
            r.pid_self == self.self_pid,
            r.only_trace_container == (if self.container_only { 1u8 } else { 0u8 }),
            r.trace_syscall == (match self.target_syscall {
                Some(n) => n,
                None => NO_SYSCALL_FILTER,
            }),
    {
        ProbeParams {
            pid_self: self.self_pid,
            only_trace_container: if self.container_only { 1 } else { 0 },
            trace_syscall: match self.target_syscall {
                Some(n) => n,
                None => NO_SYSCALL_FILTER,
            },
        }
    }
}

} // verus!
