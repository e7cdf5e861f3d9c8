use westworld::fsm::{Handler, StateMachine, StateStack, StateTransition};

#[derive(Clone, Copy, Debug, PartialEq)]
enum Tag {
    A,
    B,
    C,
    S,
}

#[derive(Debug, PartialEq)]
enum Fired {
    Start(Tag),
    Stop(Tag),
    Pause(Tag),
    Resume(Tag),
    Update(Tag),
}

struct Trace {
    fired: Vec<Fired>,
    updates_of_a: usize,
}

impl Trace {
    fn new() -> Self {
        Trace { fired: Vec::new(), updates_of_a: 0 }
    }
}

/// Records every callback. `A` pushes `B` on its first update and stays
/// afterwards, `B` pops, `C` switches to `A`, `S` quits.
struct Script;

impl Handler<Tag, Trace> for Script {
    fn on_start(&self, state: &Tag, trace: &mut Trace) {
        trace.fired.push(Fired::Start(*state));
    }

    fn on_stop(&self, state: &Tag, trace: &mut Trace) {
        trace.fired.push(Fired::Stop(*state));
    }

    fn on_pause(&self, state: &Tag, trace: &mut Trace) {
        trace.fired.push(Fired::Pause(*state));
    }

    fn on_resume(&self, state: &Tag, trace: &mut Trace) {
        trace.fired.push(Fired::Resume(*state));
    }

    fn update(&self, state: &Tag, trace: &mut Trace) -> StateTransition<Tag> {
        trace.fired.push(Fired::Update(*state));
        match state {
            Tag::A => {
                trace.updates_of_a += 1;
                if trace.updates_of_a == 1 {
                    StateTransition::Push(Tag::B)
                } else {
                    StateTransition::Stay
                }
            }
            Tag::B => StateTransition::Pop,
            Tag::C => StateTransition::Switch(Tag::A),
            Tag::S => StateTransition::Quit,
        }
    }
}

fn stack_of(tags: &[Tag]) -> StateStack<Tag> {
    let mut stack = StateStack::new();
    for tag in tags {
        stack.push(*tag);
    }
    stack
}

fn drain(stack: &mut StateStack<Tag>) -> Vec<Tag> {
    let mut top_down = Vec::new();
    while let Some(tag) = stack.pop() {
        top_down.push(tag);
    }
    top_down
}

#[test]
fn pushes_pause_the_old_top_right_before_starting_the_new_one() {
    let mut stack = StateStack::new();
    let mut trace = Trace::new();
    StateMachine::transition(&Script, StateTransition::Push(Tag::A), &mut stack, &mut trace);
    StateMachine::transition(&Script, StateTransition::Push(Tag::B), &mut stack, &mut trace);
    StateMachine::transition(&Script, StateTransition::Push(Tag::C), &mut stack, &mut trace);
    assert_eq!(
        trace.fired,
        vec![
            Fired::Start(Tag::A),
            Fired::Pause(Tag::A),
            Fired::Start(Tag::B),
            Fired::Pause(Tag::B),
            Fired::Start(Tag::C),
        ]
    );
    assert_eq!(stack.last(), Some(&Tag::C));
    assert_eq!(drain(&mut stack), vec![Tag::C, Tag::B, Tag::A]);
}

#[test]
fn push_on_an_empty_stack_pauses_nothing() {
    let mut stack = StateStack::new();
    let mut trace = Trace::new();
    StateMachine::push(&Script, Tag::A, &mut stack, &mut trace);
    assert_eq!(trace.fired, vec![Fired::Start(Tag::A)]);
    assert_eq!(drain(&mut stack), vec![Tag::A]);
}

#[test]
fn pop_of_the_last_state_stops_it_and_resumes_nothing() {
    let mut stack = stack_of(&[Tag::A]);
    let mut trace = Trace::new();
    StateMachine::transition(&Script, StateTransition::Pop, &mut stack, &mut trace);
    assert_eq!(trace.fired, vec![Fired::Stop(Tag::A)]);
    assert!(stack.is_empty());
    assert!(!StateMachine::is_running(&stack));
}

#[test]
fn pop_stops_the_top_then_resumes_the_new_top() {
    let mut stack = stack_of(&[Tag::A, Tag::B, Tag::C]);
    let mut trace = Trace::new();
    StateMachine::transition(&Script, StateTransition::Pop, &mut stack, &mut trace);
    assert_eq!(trace.fired, vec![Fired::Stop(Tag::C), Fired::Resume(Tag::B)]);
    assert!(StateMachine::is_running(&stack));
    assert_eq!(drain(&mut stack), vec![Tag::B, Tag::A]);
}

#[test]
fn pop_on_an_empty_stack_does_nothing() {
    let mut stack: StateStack<Tag> = StateStack::new();
    let mut trace = Trace::new();
    StateMachine::pop(&Script, &mut stack, &mut trace);
    assert!(trace.fired.is_empty());
    assert!(stack.is_empty());
}

#[test]
fn switch_replaces_the_top_without_pausing_or_resuming() {
    let mut stack = stack_of(&[Tag::A, Tag::B]);
    let mut trace = Trace::new();
    StateMachine::transition(&Script, StateTransition::Switch(Tag::C), &mut stack, &mut trace);
    assert_eq!(trace.fired, vec![Fired::Stop(Tag::B), Fired::Start(Tag::C)]);
    assert_eq!(drain(&mut stack), vec![Tag::C, Tag::A]);
}

#[test]
fn switch_on_an_empty_stack_only_starts() {
    let mut stack = StateStack::new();
    let mut trace = Trace::new();
    StateMachine::switch(&Script, Tag::B, &mut stack, &mut trace);
    assert_eq!(trace.fired, vec![Fired::Start(Tag::B)]);
    assert_eq!(drain(&mut stack), vec![Tag::B]);
}

#[test]
fn quit_stops_every_state_from_the_top_down() {
    let mut stack = stack_of(&[Tag::A, Tag::B, Tag::C]);
    let mut trace = Trace::new();
    StateMachine::transition(&Script, StateTransition::Quit, &mut stack, &mut trace);
    assert_eq!(
        trace.fired,
        vec![Fired::Stop(Tag::C), Fired::Stop(Tag::B), Fired::Stop(Tag::A)]
    );
    assert!(stack.is_empty());
}

#[test]
fn quit_on_an_empty_stack_does_nothing() {
    let mut stack: StateStack<Tag> = StateStack::new();
    let mut trace = Trace::new();
    StateMachine::stop(&Script, &mut stack, &mut trace);
    assert!(trace.fired.is_empty());
    assert!(stack.is_empty());
}

#[test]
fn stay_changes_nothing() {
    let mut stack = stack_of(&[Tag::A, Tag::B]);
    let mut trace = Trace::new();
    StateMachine::transition(&Script, StateTransition::Stay, &mut stack, &mut trace);
    assert!(trace.fired.is_empty());
    assert_eq!(drain(&mut stack), vec![Tag::B, Tag::A]);
}

#[test]
fn update_of_a_stopped_machine_does_nothing() {
    let mut stack: StateStack<Tag> = StateStack::new();
    let mut trace = Trace::new();
    StateMachine::update(&Script, &mut stack, &mut trace);
    StateMachine::update(&Script, &mut stack, &mut trace);
    assert!(trace.fired.is_empty());
    assert!(stack.is_empty());
    assert!(!StateMachine::is_running(&stack));
}

#[test]
fn update_asks_only_the_top_state() {
    let mut stack = stack_of(&[Tag::B, Tag::A]);
    let mut trace = Trace::new();
    trace.updates_of_a = 1;
    StateMachine::update(&Script, &mut stack, &mut trace);
    assert_eq!(trace.fired, vec![Fired::Update(Tag::A)]);
    assert_eq!(drain(&mut stack), vec![Tag::A, Tag::B]);
}

#[test]
fn update_applies_a_switch() {
    let mut stack = stack_of(&[Tag::B, Tag::C]);
    let mut trace = Trace::new();
    trace.updates_of_a = 1;
    StateMachine::update(&Script, &mut stack, &mut trace);
    assert_eq!(
        trace.fired,
        vec![Fired::Update(Tag::C), Fired::Stop(Tag::C), Fired::Start(Tag::A)]
    );
    assert_eq!(drain(&mut stack), vec![Tag::A, Tag::B]);
}

fn interrupt_and_return_from(stack: &mut StateStack<Tag>, trace: &mut Trace) {
    StateMachine::update(&Script, stack, trace);
    assert_eq!(
        trace.fired,
        vec![Fired::Update(Tag::A), Fired::Pause(Tag::A), Fired::Start(Tag::B)]
    );
    assert_eq!(stack.last(), Some(&Tag::B));

    trace.fired.clear();
    StateMachine::update(&Script, stack, trace);
    assert_eq!(
        trace.fired,
        vec![Fired::Update(Tag::B), Fired::Stop(Tag::B), Fired::Resume(Tag::A)]
    );
    assert_eq!(stack.last(), Some(&Tag::A));

    trace.fired.clear();
    StateMachine::update(&Script, stack, trace);
    assert_eq!(trace.fired, vec![Fired::Update(Tag::A)]);
    assert_eq!(drain(stack), vec![Tag::A]);
}

#[test]
fn interrupt_and_return() {
    let mut stack = StateStack::new();
    let mut trace = Trace::new();
    StateMachine::push(&Script, Tag::A, &mut stack, &mut trace);
    assert_eq!(trace.fired, vec![Fired::Start(Tag::A)]);

    trace.fired.clear();
    interrupt_and_return_from(&mut stack, &mut trace);
}

#[test]
fn interrupt_and_return_on_a_seeded_stack() {
    let mut stack = StateStack::new_initial_state(Tag::A);
    let mut trace = Trace::new();
    assert!(StateMachine::is_running(&stack));
    assert!(trace.fired.is_empty());

    interrupt_and_return_from(&mut stack, &mut trace);
}

#[test]
fn a_state_that_quits_stops_the_machine_for_good() {
    let mut stack = StateStack::new_initial_state(Tag::S);
    let mut trace = Trace::new();
    assert!(StateMachine::is_running(&stack));

    StateMachine::update(&Script, &mut stack, &mut trace);
    assert_eq!(trace.fired, vec![Fired::Update(Tag::S), Fired::Stop(Tag::S)]);
    assert!(stack.is_empty());
    assert!(!StateMachine::is_running(&stack));

    trace.fired.clear();
    StateMachine::update(&Script, &mut stack, &mut trace);
    StateMachine::update(&Script, &mut stack, &mut trace);
    assert!(trace.fired.is_empty());
    assert!(!StateMachine::is_running(&stack));
}
