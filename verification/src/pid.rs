//! Process identifiers and kernel-stack slots.
//!
//! Pids are handed out in increasing order and never reused. Kernel-stack
//! slots are recycled: a released slot is kept on a stack and handed out
//! again before any fresh slot.
use vstd::prelude::*;
use crate::config::{KERNEL_STACK_SIZE, PAGE_SIZE, TRAMPOLINE};

verus! {

/// Pid allocator: the next pid to hand out.
pub struct PidAllocator {
    current: usize,
}

impl View for PidAllocator {
    type V = nat;

    /// The next pid that `allocate` returns; every smaller pid has been issued.
    closed spec fn view(&self) -> nat {
        self.current as nat
    }
}

impl PidAllocator {
    /// The pids issued so far.
    pub open spec fn issued(&self) -> Set<nat> {
        Set::new(|p: nat| p < self@)
    }

    /// Create an empty `PidAllocator`.
    pub fn new() -> (a: Self)
        ensures
            a@ == 0,
            a.issued() == Set::<nat>::empty(),
    {
        let a = PidAllocator { current: 0 };
        assert(a.issued() =~= Set::<nat>::empty());
        a
    }

    /// Allocate a monotonically increasing pid.
    pub fn allocate(&mut self) -> (pid: usize)
        requires
            old(self)@ < usize::MAX,
        ensures
            pid == old(self)@,
            final(self)@ == old(self)@ + 1,
            !old(self).issued().contains(pid as nat),
            final(self).issued() == old(self).issued().insert(pid as nat),
    {
        let pid = self.current;
        self.current = self.current + 1;
        assert(self.issued() =~= old(self).issued().insert(pid as nat));
        pid
    }

    /// Whether `allocate` can hand out one more pid.
    pub fn can_allocate(&self) -> (b: bool)
        ensures
            b == (self@ < usize::MAX),
    {
        self.current < usize::MAX
    }
}


/// Distance between the tops of two neighbouring kernel stacks: a stack and
/// the guard page below it.
pub open spec fn stack_stride() -> int {
    KERNEL_STACK_SIZE + PAGE_SIZE
}

/// Top address of the kernel stack in slot `id`.
pub open spec fn stack_top(id: int) -> int {
    TRAMPOLINE - id * stack_stride()
}

/// Bottom address of the kernel stack in slot `id`.
pub open spec fn stack_bottom(id: int) -> int {
    stack_top(id) - KERNEL_STACK_SIZE
}

/// The kernel stack of slot `id` lies inside the address space, below the trampoline.
pub open spec fn stack_fits(id: int) -> bool {
    0 <= id && id * stack_stride() + KERNEL_STACK_SIZE <= TRAMPOLINE
}

/// Identifier of a kernel-stack slot.
pub struct KStackSlotId(pub usize);

/// Kernel-stack slot allocator: slots below `current` have been handed out at
/// least once; those on `recycled` are free again, the last one first in line.
pub struct KStackAllocator {
    current: usize,
    recycled: Vec<usize>,
    instance: Ghost<int>,
}

impl KStackAllocator {
    /// Number of slots ever handed out.
    pub closed spec fn current(&self) -> nat {
        self.current as nat
    }

    /// Ghost name of this allocator. No contract says what it is, so two
    /// allocators are never known to share it: a kernel stack can only be given
    /// back to the allocator that it came from.
    pub closed spec fn instance(&self) -> int {
        self.instance@
    }

    /// Released slots, in release order.
    pub closed spec fn recycled(&self) -> Seq<usize> {
        self.recycled@
    }

    /// Every released slot was handed out before, and none is released twice.
    pub closed spec fn wf(&self) -> bool {
        &&& forall|i: int| 0 <= i < self.recycled@.len() ==> #[trigger] self.recycled@[i] < self.current
        &&& self.recycled@.no_duplicates()
    }

    /// Slots that are handed out and not released.
    pub open spec fn in_use(&self) -> Set<usize> {
        Set::new(|id: usize| id < self.current() && !self.recycled().contains(id))
    }

    /// The slot that the next `allocate` hands out.
    pub open spec fn next_slot(&self) -> usize {
        if self.recycled().len() > 0 {
            self.recycled().last()
        } else {
            self.current() as usize
        }
    }

    /// `allocate` can run without overflowing the slot counter.
    pub open spec fn can_allocate(&self) -> bool {
        self.recycled().len() > 0 || self.current() < usize::MAX
    }

    /// Create an allocator with no slot handed out.
    pub fn new() -> (a: Self)
        ensures
            a.wf(),
            a.current() == 0,
            a.recycled() == Seq::<usize>::empty(),
            a.in_use() == Set::<usize>::empty(),
    {
        let a = KStackAllocator { current: 0, recycled: Vec::new(), instance: Ghost(0) };
        assert(a.in_use() =~= Set::<usize>::empty());
        a
    }

    /// Hand out a slot: the most recently released one if any, else a fresh one.
    pub fn allocate(&mut self) -> (slot: KStackSlotId)
        requires
            old(self).wf(),
            old(self).can_allocate(),
        ensures
            final(self).wf(),
            final(self).instance() == old(self).instance(),
            slot.0 == old(self).next_slot(),
            !old(self).in_use().contains(slot.0),
            final(self).in_use() == old(self).in_use().insert(slot.0),
            old(self).recycled().len() > 0 ==> {
                &&& final(self).recycled() == old(self).recycled().drop_last()
                &&& final(self).current() == old(self).current()
            },
            old(self).recycled().len() == 0 ==> {
                &&& final(self).recycled() == old(self).recycled()
                &&& final(self).current() == old(self).current() + 1
            },
    {
        match self.recycled.pop() {
            Some(id) => {
                proof {
                    let r = old(self).recycled@;
                    assert(r[r.len() - 1] == id);
                    assert forall|i: int, j: int|
                        0 <= i < self.recycled@.len() && 0 <= j < self.recycled@.len() && i != j
                        implies self.recycled@[i] != self.recycled@[j] by {
                        assert(self.recycled@[i] == r[i] && self.recycled@[j] == r[j]);
                    }
                    assert forall|x: usize| #[trigger] self.recycled@.contains(x) <==> (r.contains(x) && x != id) by {
                        if self.recycled@.contains(x) {
                            let k = choose|k: int| 0 <= k < self.recycled@.len() && self.recycled@[k] == x;
                            assert(r[k] == x);
                        }
                        if r.contains(x) && x != id {
                            let k = choose|k: int| 0 <= k < r.len() && r[k] == x;
                            assert(k != r.len() - 1);
                            assert(self.recycled@[k] == x);
                        }
                    }
                    assert(r.contains(id));
                    assert(self.in_use() =~= old(self).in_use().insert(id));
                }
                KStackSlotId(id)
            },
            None => {
                let id = self.current;
                self.current = self.current + 1;
                proof {
                    assert(!old(self).recycled().contains(id));
                    assert(self.in_use() =~= old(self).in_use().insert(id));
                }
                KStackSlotId(id)
            },
        }
    }

    /// The slot that `allocate` would hand out, or `None` when the slot
    /// counter is exhausted.
    pub fn peek_next_slot(&self) -> (next: Option<usize>)
        ensures
            next == (if self.can_allocate() { Some(self.next_slot()) } else { None::<usize> }),
    {
        let n = self.recycled.len();
        if n > 0 {
            Some(self.recycled[n - 1])
        } else if self.current < usize::MAX {
            Some(self.current)
        } else {
            None
        }
    }

    /// Whether slot `kstack_slot_id` is handed out and not released.
    pub fn is_in_use(&self, kstack_slot_id: usize) -> (b: bool)
        ensures
            b == self.in_use().contains(kstack_slot_id),
    {
        if kstack_slot_id >= self.current {
            return false;
        }
        let mut i: usize = 0;
        while i < self.recycled.len()
            invariant
                i <= self.recycled@.len(),
                forall|j: int| 0 <= j < i ==> self.recycled@[j] != kstack_slot_id,
            decreases self.recycled@.len() - i,
        {
            if self.recycled[i] == kstack_slot_id {
                return false;
            }
            i = i + 1;
        }
        true
    }

    /// Give back a slot that is in use.
    pub(crate) fn dealloc(&mut self, kstack_slot_id: usize)
        requires
            old(self).wf(),
            old(self).in_use().contains(kstack_slot_id),
        ensures
            final(self).wf(),
            final(self).instance() == old(self).instance(),
            final(self).current() == old(self).current(),
            final(self).recycled() == old(self).recycled().push(kstack_slot_id),
            final(self).in_use() == old(self).in_use().remove(kstack_slot_id),
            final(self).next_slot() == kstack_slot_id,
    {
        self.recycled.push(kstack_slot_id);
        proof {
            let r = old(self).recycled@;
            assert forall|x: usize| #[trigger] self.recycled@.contains(x) <==> (r.contains(x) || x == kstack_slot_id) by {
                if self.recycled@.contains(x) {
                    let k = choose|k: int| 0 <= k < self.recycled@.len() && self.recycled@[k] == x;
                    if k < r.len() {
                        assert(r[k] == x);
                    }
                }
                if r.contains(x) {
                    let k = choose|k: int| 0 <= k < r.len() && r[k] == x;
                    assert(self.recycled@[k] == x);
                }
                if x == kstack_slot_id {
                    assert(self.recycled@[r.len() as int] == x);
                }
            }
            assert(self.in_use() =~= old(self).in_use().remove(kstack_slot_id));
        }
    }
}


/// Return (bottom, top) of a kernel stack in kernel space.
pub fn kernel_stack_position(kstack_slot_id: usize) -> (pos: (usize, usize))
    requires
        stack_fits(kstack_slot_id as int),
    ensures
        pos.0 == stack_bottom(kstack_slot_id as int),
        pos.1 == stack_top(kstack_slot_id as int),
        pos.1 == TRAMPOLINE - kstack_slot_id * (KERNEL_STACK_SIZE + PAGE_SIZE),
        pos.1 - pos.0 == KERNEL_STACK_SIZE,
{
    assert(kstack_slot_id * stack_stride() <= TRAMPOLINE);
    let top = TRAMPOLINE - kstack_slot_id * (KERNEL_STACK_SIZE + PAGE_SIZE);
    let bottom = top - KERNEL_STACK_SIZE;
    (bottom, top)
}

/// Whether the kernel stack of slot `kstack_slot_id` lies below the trampoline.
pub fn kernel_stack_fits(kstack_slot_id: usize) -> (b: bool)
    ensures
        b == stack_fits(kstack_slot_id as int),
{
    let limit = (TRAMPOLINE - KERNEL_STACK_SIZE) / (KERNEL_STACK_SIZE + PAGE_SIZE);
    proof {
        let x = kstack_slot_id as int;
        let m = TRAMPOLINE - KERNEL_STACK_SIZE;
        let d = stack_stride();
        assert(x <= m / d <==> x * d <= m) by (nonlinear_arith)
            requires
                d > 0,
                m >= 0,
                x >= 0,
        {
            assert(d * (m / d) + m % d == m);
            assert(0 <= m % d < d);
            if x <= m / d {
                assert(x * d <= (m / d) * d);
            } else {
                assert(x >= m / d + 1);
                assert(x * d >= (m / d + 1) * d);
            }
        }
    }
    kstack_slot_id <= limit
}

/// Kernel stacks of two different slots never overlap: the stack of the
/// higher slot ends at least one guard page below the stack of the lower slot.
pub proof fn lemma_kernel_stacks_disjoint(i: int, j: int)
    requires
        0 <= i < j,
        stack_fits(j),
    ensures
        stack_fits(i),
        stack_top(j) + PAGE_SIZE <= stack_bottom(i),
        stack_bottom(j) < stack_top(j) <= stack_bottom(i) < stack_top(i) <= TRAMPOLINE,
{
    assert(i * stack_stride() + stack_stride() <= j * stack_stride()) by (nonlinear_arith)
        requires
            0 <= i < j,
            stack_stride() > 0,
    ;
}

/// Every kernel stack has the same size: for each slot that fits, the stack
/// spans exactly `KERNEL_STACK_SIZE` bytes below its top, and the top lies
/// one stride (stack plus guard page) per slot below the trampoline.
pub proof fn lemma_kernel_stack_size(id: int)
    requires
        stack_fits(id),
    ensures
        stack_top(id) - stack_bottom(id) == KERNEL_STACK_SIZE,
        stack_top(id) == TRAMPOLINE - id * (KERNEL_STACK_SIZE + PAGE_SIZE),
        stack_bottom(id) >= 0,
        stack_top(id) <= TRAMPOLINE,
{
    assert(id * stack_stride() >= 0) by (nonlinear_arith)
        requires
            id >= 0,
            stack_stride() > 0,
    ;
}

/// Neighbouring slots' stacks are one stride apart, and both have the same size.
pub proof fn lemma_kernel_stack_neighbours(id: int)
    requires
        stack_fits(id + 1),
        id >= 0,
    ensures
        stack_top(id) - stack_top(id + 1) == KERNEL_STACK_SIZE + PAGE_SIZE,
        stack_bottom(id) - stack_bottom(id + 1) == KERNEL_STACK_SIZE + PAGE_SIZE,
        stack_bottom(id) - stack_top(id + 1) == PAGE_SIZE,
{
    assert((id + 1) * stack_stride() == id * stack_stride() + stack_stride()) by (nonlinear_arith);
}

/// A slot handed back is the next one handed out.
pub proof fn lemma_released_slot_reused_first(a: KStackAllocator, b: KStackAllocator, id: usize)
    requires
        b.recycled() == a.recycled().push(id),
    ensures
        b.next_slot() == id,
{
}

/// Kernel stack of a process, backed by one kernel-stack slot.
pub struct KernelStack {
    kstack_slot_id: KStackSlotId,
    owner: Ghost<int>,
}

impl KernelStack {
    /// The slot backing this stack.
    pub closed spec fn slot(&self) -> usize {
        self.kstack_slot_id.0
    }

    /// The `instance` of the allocator that this stack's slot came from.
    pub closed spec fn owner(&self) -> int {
        self.owner@
    }

    #[verifier::type_invariant]
    spec fn slot_fits(&self) -> bool {
        stack_fits(self.kstack_slot_id.0 as int)
    }

    /// Create a kernel stack in the slot that `allocator` hands out next.
    pub fn new(allocator: &mut KStackAllocator) -> (stack: Self)
        requires
            old(allocator).wf(),
            old(allocator).can_allocate(),
            stack_fits(old(allocator).next_slot() as int),
        ensures
            final(allocator).wf(),
            final(allocator).instance() == old(allocator).instance(),
            stack.owner() == old(allocator).instance(),
            stack.slot() == old(allocator).next_slot(),
            !old(allocator).in_use().contains(stack.slot()),
            final(allocator).in_use() == old(allocator).in_use().insert(stack.slot()),
            final(allocator).current() == (if old(allocator).recycled().len() > 0 {
                old(allocator).current()
            } else {
                old(allocator).current() + 1
            }),
            final(allocator).recycled() == (if old(allocator).recycled().len() > 0 {
                old(allocator).recycled().drop_last()
            } else {
                old(allocator).recycled()
            }),
    {
        let kstack_slot_id = allocator.allocate();
        KernelStack { kstack_slot_id, owner: Ghost(allocator.instance()) }
    }

    /// The slot backing this stack.
    pub fn slot_id(&self) -> (id: usize)
        ensures
            id == self.slot(),
    {
        self.kstack_slot_id.0
    }

    /// Get the value on the top of kernelstack.
    pub fn get_top(&self) -> (top: usize)
        ensures
            stack_fits(self.slot() as int),
            top == stack_top(self.slot() as int),
            top == TRAMPOLINE - self.slot() * (KERNEL_STACK_SIZE + PAGE_SIZE),
    {
        proof {
            use_type_invariant(self);
        }
        let (_, kernel_stack_top) = kernel_stack_position(self.kstack_slot_id.0);
        kernel_stack_top
    }

    /// Address at which a value of `size` bytes pushed on top of the stack lies.
    pub fn push_on_top_address(&self, size: usize) -> (addr: usize)
        requires
            size <= stack_top(self.slot() as int),
        ensures
            addr == stack_top(self.slot() as int) - size,
    {
        let kernel_stack_top = self.get_top();
        kernel_stack_top - size
    }

    /// Give the slot back to `allocator`; returns the stack's bottom address,
    /// where its mapping starts.
    pub fn release(self, allocator: &mut KStackAllocator) -> (bottom: usize)
        requires
            old(allocator).wf(),
            old(allocator).instance() == self.owner(),
            old(allocator).in_use().contains(self.slot()),
        ensures
            bottom == stack_bottom(self.slot() as int),
            bottom == TRAMPOLINE - self.slot() * (KERNEL_STACK_SIZE + PAGE_SIZE) - KERNEL_STACK_SIZE,
            final(allocator).wf(),
            final(allocator).instance() == old(allocator).instance(),
            final(allocator).current() == old(allocator).current(),
            final(allocator).recycled() == old(allocator).recycled().push(self.slot()),
            final(allocator).in_use() == old(allocator).in_use().remove(self.slot()),
    {
        proof {
            use_type_invariant(&self);
        }
        let (kernel_stack_bottom, _) = kernel_stack_position(self.kstack_slot_id.0);
        allocator.dealloc(self.kstack_slot_id.0);
        kernel_stack_bottom
    }
}

} // verus!
