use rcore_os::syscall::{sys_exit, sys_write};
use rcore_os::user_lib::{exit, get_time, sbrk, yield_};

#[test]
fn write_loads_fd_buffer_and_length() {
    let r = rcore_os::user_lib::write(1, 0x1000, 12);
    assert_eq!(r.id, 64);
    assert_eq!(r.args, [1, 0x1000, 12]);
    let s = sys_write(2, 0x2000, 3);
    assert_eq!(s.id, 64);
    assert_eq!(s.args, [2, 0x2000, 3]);
}

#[test]
fn exit_sign_extends_code() {
    let r = exit(3);
    assert_eq!(r.id, 93);
    assert_eq!(r.args, [3, 0, 0]);
    let n = sys_exit(-1);
    assert_eq!(n.args, [usize::MAX, 0, 0]);
}

#[test]
fn yield_time_and_sbrk_numbers() {
    assert_eq!(yield_().id, 124);
    assert_eq!(yield_().args, [0, 0, 0]);
    assert_eq!(get_time().id, 169);
    assert_eq!(get_time().args, [0, 0, 0]);
    let s = sbrk(4096);
    assert_eq!(s.id, 214);
    assert_eq!(s.args, [4096, 0, 0]);
    assert_eq!(sbrk(-4096).args[0], (-4096i64) as usize);
}
