use forge_vm::error::VmError;
use forge_vm::stack::Stack;

#[test]
fn test_stack_create() {
    let stack = Stack::<i32>::new(1024);
    assert_eq!(stack.capacity(), 1024);
}

#[test]
fn test_stack_push_pop() {
    let mut stack = Stack::<i32>::new(1024);
    stack.push(42).unwrap();
    assert_eq!(stack.pop().unwrap(), 42);
}

#[test]
fn test_stack_push_overflow() {
    let mut stack = Stack::<i32>::new(1);
    stack.push(42).unwrap();
    assert_eq!(stack.push(42).unwrap_err(), VmError::StackOverflow);
}

#[test]
fn test_stack_pop_underflow() {
    let mut stack = Stack::<i32>::new(1);
    assert_eq!(stack.pop().unwrap_err(), VmError::StackUnderflow);
}

#[test]
fn test_stack_peek() {
    let mut stack = Stack::<i32>::new(1024);
    stack.push(42).unwrap();
    assert_eq!(*stack.peek().unwrap(), 42);
}

#[test]
fn test_stack_peek_underflow() {
    let stack = Stack::<i32>::new(1024);
    assert_eq!(stack.peek().unwrap_err(), VmError::StackUnderflow);
}

#[test]
fn test_stack_len() {
    let mut stack = Stack::<i32>::new(1024);
    stack.push(42).unwrap();
    assert_eq!(stack.len(), 1);
}

#[test]
fn test_stack_is_empty() {
    let stack = Stack::<i32>::new(1024);
    assert!(stack.is_empty());
}

#[test]
fn test_stack_clear() {
    let mut stack = Stack::<i32>::new(1024);
    stack.push(42).unwrap();
    stack.clear();
    assert!(stack.is_empty());
}

#[test]
fn test_stack_capacity() {
    let stack = Stack::<i32>::new(1024);
    assert_eq!(stack.capacity(), 1024);
}

/// Pushing exactly `capacity` values succeeds, one more push overflows, and
/// popping returns the values in exact reverse push order until the stack
/// underflows.
#[test]
fn test_stack_full_cycle_reverse_order() {
    let mut stack = Stack::<i32>::new(4);
    for v in [10, 20, 30, 40] {
        assert_eq!(stack.push(v), Ok(()));
    }
    assert_eq!(stack.push(50), Err(VmError::StackOverflow));
    assert_eq!(stack.len(), 4);
    for v in [40, 30, 20, 10] {
        assert_eq!(stack.pop(), Ok(v));
    }
    assert_eq!(stack.pop(), Err(VmError::StackUnderflow));
}

#[test]
fn test_stack_zero_capacity_overflows_at_once() {
    let mut stack = Stack::<i32>::new(0);
    assert_eq!(stack.push(1), Err(VmError::StackOverflow));
    assert!(stack.is_empty());
}
