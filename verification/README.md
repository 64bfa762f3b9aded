# rcore_os

Verified core of a small RISC-V teaching kernel and its user library.

- `src/` (Verus): pid and kernel-stack slot allocation and the kernel-stack
  layout (`pid`), scheduler-switch tracing decisions (`trace`), the reset
  reason of a shutdown (`sbi`), system-call encoding (`syscall`, `user_lib`)
  and a round-robin executor for a stackless coroutine (`coroutine`).
- `app/` (plain Rust): firmware calls through `sbi-rt`, the global allocators,
  the trace hooks, the `ecall` entry and the coroutine demonstration.
- `tests/`: tests of the library.
