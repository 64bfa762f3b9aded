use rcore_os::sbi::{shutdown_reason, ShutdownReason};
use rcore_os::trace::{KernelTracePlatform, SwitchTracer, TraceOffCpuState, TraceTaskInfo};

#[test]
fn idle_task_identity() {
    let idle = TraceTaskInfo::idle();
    assert_eq!(idle.pid, 0);
    assert_eq!(idle.comm, "idle");
}

#[test]
fn switch_without_pending_comes_from_idle() {
    let mut t = SwitchTracer::new();
    let ev = t.record_sched_switch_to(7, String::from("shell"));
    assert_eq!(ev.prev.pid, 0);
    assert_eq!(ev.prev.comm, "idle");
    assert_eq!(ev.prev_state, TraceOffCpuState::Running);
    assert_eq!(ev.next.pid, 7);
    assert_eq!(ev.next.comm, "shell");
}

#[test]
fn pending_switch_is_reported_once() {
    let mut t = SwitchTracer::new();
    t.set_pending_switch(3, String::from("initproc"), TraceOffCpuState::Dead);
    let ev = t.record_sched_switch_to(4, String::from("user_shell"));
    assert_eq!(ev.prev.pid, 3);
    assert_eq!(ev.prev.comm, "initproc");
    assert_eq!(ev.prev_state, TraceOffCpuState::Dead);
    assert_eq!(ev.next.pid, 4);
    let again = t.record_sched_switch_to(4, String::from("user_shell"));
    assert_eq!(again.prev.pid, 0);
    assert_eq!(again.prev_state, TraceOffCpuState::Running);
}

#[test]
fn later_pending_switch_replaces_earlier() {
    let mut t = SwitchTracer::new();
    t.set_pending_switch(1, String::from("a"), TraceOffCpuState::Dead);
    t.set_pending_switch(2, String::from("b"), TraceOffCpuState::Running);
    let ev = t.record_sched_switch_to(9, String::from("c"));
    assert_eq!(ev.prev.pid, 2);
    assert_eq!(ev.prev.comm, "b");
    assert_eq!(ev.prev_state, TraceOffCpuState::Running);
}

#[test]
fn pid_is_truncated_to_32_bits() {
    let mut t = SwitchTracer::new();
    let ev = t.record_sched_switch_to((1usize << 32) + 5, String::from("x"));
    assert_eq!(ev.next.pid, 5);
}

#[test]
fn nanoseconds_of_ticks() {
    let p = KernelTracePlatform;
    assert_eq!(p.now_ns(0), 0);
    // 12.5 MHz: one tick is 80 ns
    assert_eq!(p.now_ns(1), 80);
    assert_eq!(p.now_ns(12_500_000), 1_000_000_000);
    assert_eq!(p.cpu_id(), 0);
}

#[test]
fn shutdown_reasons() {
    assert_eq!(shutdown_reason(false), ShutdownReason::NoReason);
    assert_eq!(shutdown_reason(true), ShutdownReason::SystemFailure);
}
