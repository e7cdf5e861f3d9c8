use westworld::fsm::StateStack;

#[test]
fn new_stack_is_empty() {
    let mut stack: StateStack<u8> = StateStack::new();
    assert!(stack.is_empty());
    assert_eq!(stack.last(), None);
    assert_eq!(stack.last_mut(), None);
    assert_eq!(stack.pop(), None);
    assert!(stack.is_empty());
}

#[test]
fn seeded_stack_holds_exactly_the_seed() {
    let mut stack = StateStack::new_initial_state(42u8);
    assert!(!stack.is_empty());
    assert_eq!(stack.last(), Some(&42));
    assert_eq!(stack.pop(), Some(42));
    assert_eq!(stack.pop(), None);
    assert!(stack.is_empty());
}

#[test]
fn push_and_pop_are_last_in_first_out() {
    let mut stack = StateStack::new();
    stack.push('a');
    stack.push('b');
    stack.push('c');
    assert_eq!(stack.last(), Some(&'c'));
    assert_eq!(stack.pop(), Some('c'));
    assert_eq!(stack.last(), Some(&'b'));
    assert_eq!(stack.pop(), Some('b'));
    assert_eq!(stack.pop(), Some('a'));
    assert_eq!(stack.pop(), None);
}

#[test]
fn last_does_not_remove() {
    let mut stack = StateStack::new_initial_state(1u32);
    stack.push(2);
    assert_eq!(stack.last(), Some(&2));
    assert_eq!(stack.last(), Some(&2));
    assert_eq!(stack.pop(), Some(2));
    assert_eq!(stack.pop(), Some(1));
}

#[test]
fn last_mut_changes_only_the_top() {
    let mut stack = StateStack::new_initial_state(1u32);
    stack.push(2);
    stack.push(3);
    if let Some(top) = stack.last_mut() {
        *top = 30;
    }
    assert_eq!(stack.pop(), Some(30));
    assert_eq!(stack.pop(), Some(2));
    assert_eq!(stack.pop(), Some(1));
    assert_eq!(stack.pop(), None);
}

#[test]
fn popping_an_empty_stack_changes_nothing() {
    let mut stack: StateStack<u8> = StateStack::new();
    assert_eq!(stack.pop(), None);
    assert_eq!(stack.pop(), None);
    stack.push(5);
    assert_eq!(stack.pop(), Some(5));
    assert!(stack.is_empty());
}
