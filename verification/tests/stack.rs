use page_alloc::codec::SinglePageAllocation;
use page_alloc::stack::SinglePageStack;

#[test]
/// a fresh stack has its cursor at the bottom of the page
fn stack_starts_empty() {
    assert_eq!(0, SinglePageStack::default().top());
}

#[test]
/// resuming from the last known allocation puts the cursor right after it
fn stack_resumes_after_last_allocation() {
    let last = SinglePageAllocation::new(0x000A0005).unwrap();
    let stack = SinglePageStack::new(last);
    assert_eq!(15, stack.top());
}

#[test]
/// resuming from an encoded word puts the cursor right after the allocation
fn stack_resumes_from_encoded_word() {
    let stack = SinglePageStack::from_encoded(0x000A0005);
    assert_eq!(15, stack.top());
}

#[test]
/// each allocation is handed out at the cursor, which then moves past it
fn allocate_bumps_the_cursor() {
    let mut stack = SinglePageStack::default();
    assert_eq!(0, stack.allocate(16));
    assert_eq!(16, stack.top());
    assert_eq!(16, stack.allocate(4));
    assert_eq!(20, stack.top());
}

#[test]
/// push/pop duality: allocating then deallocating the same range restores the
/// empty page
fn push_pop_duality() {
    let mut stack = SinglePageStack::default();
    assert_eq!(0, stack.allocate(42));
    assert_eq!(42, stack.top());
    let whole = SinglePageAllocation { offset: 0, length: 42 };
    assert!(stack.deallocate(whole).is_ok());
    assert_eq!(0, stack.top());
}

#[test]
/// push/pop duality holds at the page boundary too
fn push_pop_at_page_boundary() {
    let mut stack = SinglePageStack::default();
    assert_eq!(0, stack.allocate(0xFFFF));
    assert_eq!(0xFFFF, stack.top());
    let whole = SinglePageAllocation { offset: 0, length: 0xFFFF };
    assert!(stack.deallocate(whole).is_ok());
    assert_eq!(0, stack.top());
}

#[test]
/// only the most recent allocation may be deallocated; anything else is
/// rejected and leaves the stack unchanged
fn deallocate_rejects_non_lifo_order() {
    let mut stack = SinglePageStack::default();
    let first_offset: u16 = stack.allocate(10);
    let first = SinglePageAllocation { offset: first_offset, length: 10 };
    let second_offset: u16 = stack.allocate(5);
    let second = SinglePageAllocation { offset: second_offset, length: 5 };

    assert!(stack.deallocate(first).is_err());
    assert_eq!(15, stack.top());

    assert!(stack.deallocate(second).is_ok());
    assert_eq!(10, stack.top());
}

#[test]
/// the deallocation check compares without truncation: a range whose end only
/// matches the cursor modulo 2^16 is rejected
fn deallocate_rejects_wrapped_range() {
    let mut stack = SinglePageStack::default();
    assert_eq!(0, stack.allocate(0xFFFE));
    let wrapped = SinglePageAllocation { offset: 0xFFFF, length: 0xFFFF };
    assert!(stack.deallocate(wrapped).is_err());
    assert_eq!(0xFFFE, stack.top());
}
