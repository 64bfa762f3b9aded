//! Scheduler-switch tracing: which task leaves the CPU, in which state, and
//! which task takes it over.
use vstd::prelude::*;
use crate::config::CLOCK_FREQ;

verus! {

/// Number of CPUs that the trace image records.
pub const MAX_CPUS: usize = 1;

/// Size of the trace image.
pub const TRACE_IMAGE_SIZE: usize = 16 * 1024 * 1024;

/// Size of each CPU's event buffer: the image less its header page.
pub const TRACE_PER_CPU_BUFFER_SIZE: usize = TRACE_IMAGE_SIZE - 4096;

/// State entered by the task that is leaving the CPU.
#[derive(Clone, Copy, Debug, PartialEq, Eq, Structural)]
pub enum TraceOffCpuState {
    /// The task remains runnable.
    Running,
    /// The task has exited.
    Dead,
}

/// Nanoseconds elapsed after `ticks` ticks of the `time` counter, truncated to 64 bits.
pub open spec fn ns_of_ticks(ticks: usize) -> u64 {
    ((ticks as int * 1_000_000_000) / CLOCK_FREQ as int) as u64
}

/// While the time stamp fits in 64 bits, it is the exact number of
/// nanoseconds in `ticks` ticks at `CLOCK_FREQ` ticks per second, computed
/// without overflow: 80 ns per tick at 12.5 MHz.
pub proof fn lemma_now_ns_exact(ticks: usize)
    requires
        ticks * 80 <= u64::MAX,
    ensures
        ns_of_ticks(ticks) == ticks * 1_000_000_000 / (CLOCK_FREQ as int),
        ns_of_ticks(ticks) == ticks * 80,
        ns_of_ticks(ticks) * (CLOCK_FREQ as int) == ticks * 1_000_000_000,
{
    let t = ticks as int;
    assert(t * 1_000_000_000 == (t * 80) * 12500000) by (nonlinear_arith);
    assert((t * 80) * 12500000 / 12500000 == t * 80) by (nonlinear_arith);
}

/// Time stamps never go backwards while they fit in 64 bits, and each tick
/// adds the same 80 ns.
pub proof fn lemma_now_ns_monotone(t1: usize, t2: usize)
    requires
        t1 <= t2,
        t2 * 80 <= u64::MAX,
    ensures
        ns_of_ticks(t1) <= ns_of_ticks(t2),
        ns_of_ticks(t2) - ns_of_ticks(t1) == (t2 - t1) * 80,
{
    lemma_now_ns_exact(t1);
    lemma_now_ns_exact(t2);
}

/// Clock and CPU numbering of the kernel, as the trace image sees them.
pub struct KernelTracePlatform;

impl KernelTracePlatform {
    /// Time stamp, in nanoseconds, of the `time` counter value `ticks`.
    pub fn now_ns(&self, ticks: usize) -> (ns: u64)
        ensures
            ns == ns_of_ticks(ticks),
            ticks * 80 <= u64::MAX ==> ns == ticks * 1_000_000_000 / (CLOCK_FREQ as int),
            ticks * 80 <= u64::MAX ==> ns == ticks * 80,
    {
        proof {
            if ticks * 80 <= u64::MAX {
                lemma_now_ns_exact(ticks);
            }
        }
        (((ticks as u128) * 1_000_000_000u128) / (CLOCK_FREQ as u128)) as u64
    }

    /// The only CPU is CPU 0.
    pub fn cpu_id(&self) -> (id: u32)
        ensures
            id == 0,
    {
        0
    }
}

/// Identity of a task in the trace: its pid and its command name.
#[derive(Clone, Debug)]
pub struct TraceTaskInfo {
    pub pid: u32,
    pub comm: String,
}

impl TraceTaskInfo {
    /// The idle task: pid 0, named "idle".
    pub fn idle() -> (info: Self)
        ensures
            info.pid == 0,
            info.comm@ == "idle"@,
    {
        TraceTaskInfo { pid: 0, comm: "idle".to_owned() }
    }
}

/// A task that is about to leave the CPU, recorded until the switch happens.
#[derive(Clone, Debug)]
pub struct PendingSwitch {
    pub prev: TraceTaskInfo,
    pub state: TraceOffCpuState,
}

/// A `sched_switch` event: `prev` left the CPU in `prev_state`, `next` took it.
#[derive(Debug)]
pub struct SchedSwitch {
    pub prev: TraceTaskInfo,
    pub prev_state: TraceOffCpuState,
    pub next: TraceTaskInfo,
}

/// The pending record after one call on a tracer that held `pending`:
/// `Some(p)` stands for a `set_pending_switch` that stores `p`, which replaces
/// what was held; `None` for a `record_sched_switch_to`, which consumes it.
pub open spec fn after_call(pending: Option<PendingSwitch>, call: Option<PendingSwitch>) -> Option<PendingSwitch> {
    match call {
        Some(p) => Some(p),
        None => None,
    }
}

/// The pending record after the calls `calls`, in order, on a tracer that held `start`.
pub open spec fn pending_after(start: Option<PendingSwitch>, calls: Seq<Option<PendingSwitch>>) -> Option<PendingSwitch>
    decreases calls.len(),
{
    if calls.len() == 0 {
        start
    } else {
        after_call(pending_after(start, calls.drop_last()), calls.last())
    }
}

/// Pid, command name and state of the task that a switch reports as leaving
/// the CPU, when the tracer holds `pending`.
pub open spec fn switch_source(pending: Option<PendingSwitch>) -> (u32, Seq<char>, TraceOffCpuState) {
    match pending {
        Some(p) => (p.prev.pid, p.prev.comm@, p.state),
        None => (0, "idle"@, TraceOffCpuState::Running),
    }
}

/// In any sequence of tracer calls, the switch at position `i` reports the
/// task stored by the call just before it when that call was a
/// `set_pending_switch` (the latest one since the previous switch), and the
/// idle task, still running, when that call was a switch; the first call
/// reports what the tracer started with. Every switch consumes the pending
/// record, so a stored task is reported by one switch at most.
pub proof fn lemma_switch_sequence(start: Option<PendingSwitch>, calls: Seq<Option<PendingSwitch>>, i: int)
    requires
        0 <= i < calls.len(),
        calls[i] is None,
    ensures
        switch_source(pending_after(start, calls.take(i))) == (if i == 0 {
            switch_source(start)
        } else {
            switch_source(calls[i - 1])
        }),
        pending_after(start, calls.take(i + 1)) is None,
        forall|k: int| i < k < calls.len() && (forall|j: int| i < j < k ==> calls[j] is None)
            ==> #[trigger] switch_source(pending_after(start, calls.take(k))) == switch_source(None),
{
    if i > 0 {
        assert(calls.take(i).drop_last() =~= calls.take(i - 1));
        assert(calls.take(i).last() == calls[i - 1]);
    } else {
        assert(calls.take(0) =~= Seq::<Option<PendingSwitch>>::empty());
    }
    assert(calls.take(i + 1).last() == calls[i]);
    assert forall|k: int| i < k < calls.len() && (forall|j: int| i < j < k ==> calls[j] is None)
        implies #[trigger] switch_source(pending_after(start, calls.take(k))) == switch_source(None) by {
        assert(calls.take(k).drop_last() =~= calls.take(k - 1));
        assert(calls.take(k).last() == calls[k - 1]);
        assert(calls[k - 1] is None);
    }
}

/// Pairs each task that leaves the CPU with the task that takes it over.
pub struct SwitchTracer {
    pending: Option<PendingSwitch>,
}

impl SwitchTracer {
    /// The task recorded as leaving the CPU, if any.
    pub closed spec fn pending(&self) -> Option<PendingSwitch> {
        self.pending
    }

    /// A tracer with no pending switch.
    pub fn new() -> (t: Self)
        ensures
            t.pending() is None,
    {
        SwitchTracer { pending: None }
    }

    /// Records the task `pid`/`comm` as the next scheduler switch source,
    /// replacing any earlier record. The pid is truncated to 32 bits.
    pub fn set_pending_switch(&mut self, pid: usize, comm: String, state: TraceOffCpuState)
        ensures
            final(self).pending() == Some(
                PendingSwitch { prev: TraceTaskInfo { pid: pid as u32, comm }, state },
            ),
            final(self).pending() == after_call(
                old(self).pending(),
                Some(PendingSwitch { prev: TraceTaskInfo { pid: pid as u32, comm }, state }),
            ),
    {
        self.pending = Some(PendingSwitch { prev: TraceTaskInfo { pid: pid as u32, comm }, state });
    }

    /// The `sched_switch` event of a switch to the task `pid`/`comm`: its
    /// source is the pending record, or the idle task, still running, when
    /// there is none. The pending record is consumed.
    pub fn record_sched_switch_to(&mut self, pid: usize, comm: String) -> (event: SchedSwitch)
        ensures
            final(self).pending() is None,
            final(self).pending() == after_call(old(self).pending(), None),
            (event.prev.pid, event.prev.comm@, event.prev_state) == switch_source(old(self).pending()),
            event.next == (TraceTaskInfo { pid: pid as u32, comm }),
            match old(self).pending() {
                Some(p) => event.prev == p.prev && event.prev_state == p.state,
                None => {
                    &&& event.prev.pid == 0
                    &&& event.prev.comm@ == "idle"@
                    &&& event.prev_state == TraceOffCpuState::Running
                },
            },
    {
        let pending = match self.pending.take() {
            Some(p) => p,
            None => PendingSwitch { prev: TraceTaskInfo::idle(), state: TraceOffCpuState::Running },
        };
        let next = TraceTaskInfo { pid: pid as u32, comm };
        SchedSwitch { prev: pending.prev, prev_state: pending.state, next }
    }
}

} // verus!
