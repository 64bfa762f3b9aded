use rcore_os::config::{KERNEL_STACK_SIZE, PAGE_SIZE, TRAMPOLINE};
use rcore_os::pid::{kernel_stack_position, KStackAllocator, KernelStack, PidAllocator};

#[test]
fn pids_increase_from_zero() {
    let mut a = PidAllocator::new();
    assert_eq!(a.allocate(), 0);
    assert_eq!(a.allocate(), 1);
    assert_eq!(a.allocate(), 2);
}

#[test]
fn fresh_slots_are_consecutive() {
    let mut k = KStackAllocator::new();
    assert_eq!(k.allocate().0, 0);
    assert_eq!(k.allocate().0, 1);
    assert_eq!(k.allocate().0, 2);
}

#[test]
fn released_slot_is_reused_first() {
    let mut k = KStackAllocator::new();
    let a = KernelStack::new(&mut k);
    let b = KernelStack::new(&mut k);
    let _c = KernelStack::new(&mut k);
    let (slot_a, slot_b) = (a.slot_id(), b.slot_id());
    assert_eq!((slot_a, slot_b), (0, 1));
    a.release(&mut k);
    b.release(&mut k);
    assert!(!k.is_in_use(slot_a) && !k.is_in_use(slot_b));
    // last released, first handed out
    assert_eq!(k.peek_next_slot(), Some(slot_b));
    assert_eq!(k.allocate().0, slot_b);
    assert_eq!(k.allocate().0, slot_a);
    assert_eq!(k.allocate().0, 3);
}

#[test]
fn stack_position_of_first_slots() {
    assert_eq!(kernel_stack_position(0), (TRAMPOLINE - KERNEL_STACK_SIZE, TRAMPOLINE));
    let stride = KERNEL_STACK_SIZE + PAGE_SIZE;
    assert_eq!(
        kernel_stack_position(1),
        (TRAMPOLINE - stride - KERNEL_STACK_SIZE, TRAMPOLINE - stride)
    );
    assert_eq!(kernel_stack_position(2).1, TRAMPOLINE - 2 * 0x3000);
}

#[test]
fn neighbouring_stacks_have_a_guard_page() {
    let (bottom0, _) = kernel_stack_position(0);
    let (_, top1) = kernel_stack_position(1);
    assert_eq!(bottom0 - top1, PAGE_SIZE);
}

#[test]
fn kernel_stack_top_and_release() {
    let mut k = KStackAllocator::new();
    let s0 = KernelStack::new(&mut k);
    let s1 = KernelStack::new(&mut k);
    assert_eq!(s0.get_top(), TRAMPOLINE);
    assert_eq!(s1.get_top(), TRAMPOLINE - (KERNEL_STACK_SIZE + PAGE_SIZE));
    assert_eq!(s1.push_on_top_address(16), s1.get_top() - 16);
    let bottom = s0.release(&mut k);
    assert_eq!(bottom, TRAMPOLINE - KERNEL_STACK_SIZE);
    let again = KernelStack::new(&mut k);
    assert_eq!(again.get_top(), TRAMPOLINE);
}
