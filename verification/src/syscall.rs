//! System calls of the user library, as the registers they load before `ecall`.
use vstd::prelude::*;

verus! {

pub const SYSCALL_WRITE: usize = 64;
pub const SYSCALL_EXIT: usize = 93;
pub const SYSCALL_YIELD: usize = 124;
pub const SYSCALL_GET_TIME: usize = 169;
pub const SYSCALL_SBRK: usize = 214;

/// A system call: its number, loaded into `a7`, and its arguments, loaded
/// into `a0`, `a1` and `a2`. The kernel's answer comes back in `a0`.
#[derive(Clone, Copy, Debug)]
pub struct SyscallRequest {
    pub id: usize,
    pub args: [usize; 3],
}

/// Write `buffer_len` bytes at address `buffer_addr` to the file `fd`.
pub fn sys_write(fd: usize, buffer_addr: usize, buffer_len: usize) -> (req: SyscallRequest)
    ensures
        req.id == SYSCALL_WRITE,
        req.args@ == seq![fd, buffer_addr, buffer_len],
{
    SyscallRequest { id: SYSCALL_WRITE, args: [fd, buffer_addr, buffer_len] }
}

/// Exit the current process with `exit_code`, sign-extended to a register.
pub fn sys_exit(exit_code: i32) -> (req: SyscallRequest)
    ensures
        req.id == SYSCALL_EXIT,
        req.args@ == seq![exit_code as usize, 0usize, 0usize],
{
    SyscallRequest { id: SYSCALL_EXIT, args: [exit_code as usize, 0, 0] }
}

/// Give up the CPU to another process.
pub fn sys_yield() -> (req: SyscallRequest)
    ensures
        req.id == SYSCALL_YIELD,
        req.args@ == seq![0usize, 0usize, 0usize],
{
    SyscallRequest { id: SYSCALL_YIELD, args: [0, 0, 0] }
}

/// Read the current time.
pub fn sys_get_time() -> (req: SyscallRequest)
    ensures
        req.id == SYSCALL_GET_TIME,
        req.args@ == seq![0usize, 0usize, 0usize],
{
    SyscallRequest { id: SYSCALL_GET_TIME, args: [0, 0, 0] }
}

/// Grow (or, for a negative `size`, shrink) the heap by `size` bytes,
/// sign-extended to a register.
pub fn sys_sbrk(size: i32) -> (req: SyscallRequest)
    ensures
        req.id == SYSCALL_SBRK,
        req.args@ == seq![size as usize, 0usize, 0usize],
{
    SyscallRequest { id: SYSCALL_SBRK, args: [size as usize, 0, 0] }
}

} // verus!
