//! The user library's system-call interface.
use vstd::prelude::*;
use crate::syscall::{
    sys_exit, sys_get_time, sys_sbrk, sys_write, sys_yield, SyscallRequest, SYSCALL_EXIT,
    SYSCALL_GET_TIME, SYSCALL_SBRK, SYSCALL_WRITE, SYSCALL_YIELD,
};

verus! {

/// Write the buffer at `buf_addr`, `buf_len` bytes long, to the file `fd`.
pub fn write(fd: usize, buf_addr: usize, buf_len: usize) -> (req: SyscallRequest)
    ensures
        req.id == SYSCALL_WRITE,
        req.args@ == seq![fd, buf_addr, buf_len],
{
    sys_write(fd, buf_addr, buf_len)
}

/// Exit the current process with `exit_code`.
pub fn exit(exit_code: i32) -> (req: SyscallRequest)
    ensures
        req.id == SYSCALL_EXIT,
        req.args@ == seq![exit_code as usize, 0usize, 0usize],
{
    sys_exit(exit_code)
}

/// Give up the CPU.
pub fn yield_() -> (req: SyscallRequest)
    ensures
        req.id == SYSCALL_YIELD,
        req.args@ == seq![0usize, 0usize, 0usize],
{
    sys_yield()
}

/// Read the current time.
pub fn get_time() -> (req: SyscallRequest)
    ensures
        req.id == SYSCALL_GET_TIME,
        req.args@ == seq![0usize, 0usize, 0usize],
{
    sys_get_time()
}

/// Move the end of the heap by `size` bytes.
pub fn sbrk(size: i32) -> (req: SyscallRequest)
    ensures
        req.id == SYSCALL_SBRK,
        req.args@ == seq![size as usize, 0usize, 0usize],
{
    sys_sbrk(size)
}

} // verus!
