//! Process-management core of a small RISC-V teaching kernel and its user
//! library: identifier and kernel-stack slot allocation, the kernel-stack
//! layout, scheduler-switch tracing decisions, system-call encoding and a
//! round-robin executor for stackless coroutines.

pub mod config;
pub mod pid;
pub mod coroutine;
pub mod trace;
pub mod sbi;
pub mod syscall;
pub mod user_lib;
