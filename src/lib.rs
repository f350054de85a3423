pub mod codec;
pub mod config;
pub mod consumer;
pub mod render;
pub mod syscalls;

pub use codec::{decode, encode, DecodeError, TraceEvent};
pub use config::{configure, FilterConfig, ProbeParams};
pub use consumer::{handle_lost, handle_record, next_state, ConsumerState, Emit};
pub use render::{header_line, lost_line, render};
pub use syscalls::{SyscallCatalog, SyscallError};
