//! The stack of active states.
use vstd::prelude::*;

verus! {

/// The states of one machine, in activation order. The last element is the
/// top of the stack: the only state that is currently running.
pub struct StateStack<S: Clone> {
    state_stack: Vec<S>,
}

impl<S: Clone> View for StateStack<S> {
    type V = Seq<S>;

    /// The states from the bottom of the stack to its top.
    closed spec fn view(&self) -> Seq<S> {
        self.state_stack@
    }
}

impl<S: Clone> StateStack<S> {
    /// Creates a stack that holds no state.
    pub fn new() -> (stack: Self)
        ensures
            stack@ == Seq::<S>::empty(),
    {
        StateStack { state_stack: Vec::new() }
    }

    /// Creates a stack that holds exactly `initial_state`.
    pub fn new_initial_state(initial_state: S) -> (stack: Self)
        ensures
            stack@ == seq![initial_state],
    {
        let mut state_stack = Vec::new();
        state_stack.push(initial_state);
        StateStack { state_stack }
    }

    /// Whether the stack holds no state.
    pub fn is_empty(&self) -> (empty: bool)
        ensures
            empty <==> self@.len() == 0,
    {
        self.state_stack.is_empty()
    }

    /// The state on top of the stack, if there is one.
    pub fn last(&self) -> (top: Option<&S>)
        ensures
            self@.len() == 0 ==> top is None,
            self@.len() > 0 ==> top == Some(&self@.last()),
    {
        self.state_stack.last()
    }

    /// A mutable borrow of the state on top of the stack, if there is one.
    /// Whatever the caller writes through the borrow becomes the new top;
    /// the states below it are untouched.
    pub fn last_mut(&mut self) -> (top: Option<&mut S>)
        ensures
            old(self)@.len() == 0 ==> top is None && final(self)@ == old(self)@,
            old(self)@.len() > 0 ==> top is Some && *top.unwrap() == old(self)@.last()
                && final(self)@ == old(self)@.drop_last().push(*final(top.unwrap())),
    {
        self.state_stack.last_mut()
    }

    /// Removes the state on top of the stack and returns it. An empty stack
    /// is left as it is.
    pub fn pop(&mut self) -> (top: Option<S>)
        ensures
            old(self)@.len() == 0 ==> top is None && final(self)@ == old(self)@,
            old(self)@.len() > 0 ==> top == Some(old(self)@.last())
                && final(self)@ == old(self)@.drop_last(),
    {
        self.state_stack.pop()
    }

    /// Puts `s` on top of the stack.
    pub fn push(&mut self, s: S)
        ensures
            final(self)@ == old(self)@.push(s),
    {
        self.state_stack.push(s);
    }
}

} // verus!
