//! What a state asks of the machine, and what the machine asks of a state.
use vstd::prelude::*;

verus! {

/// A transition from one state to the other, requested by the running state.
pub enum StateTransition<S: Clone> {
    /// Stay in the current state.
    Stay,
    /// End the current state and go back to the previous state on the stack,
    /// if any. Popping the last state stops the machine.
    Pop,
    /// Suspend the current state and run a new one on top of it.
    Push(S),
    /// Replace the current state by another one, resuming nothing in between.
    Switch(S),
    /// End every state on the stack and stop the machine.
    Quit,
}

/// One call that the machine makes into a [`Handler`], with the state it is
/// made for. Contracts use sequences of these to say which callbacks ran and
/// in what order.
pub enum Callback<S> {
    /// `on_start`: the state has just become active for the first time.
    Start(S),
    /// `on_stop`: the state has been removed from the stack for good.
    Stop(S),
    /// `on_pause`: another state is about to run on top of this one.
    Pause(S),
    /// `on_resume`: the state above this one has been popped.
    Resume(S),
    /// `update`: the state is on top of the stack and gets its turn.
    Update(S),
}

impl<S> Callback<S> {
    /// The state that the call is made for.
    pub open spec fn state(self) -> S {
        match self {
            Callback::Start(state) => state,
            Callback::Stop(state) => state,
            Callback::Pause(state) => state,
            Callback::Resume(state) => state,
            Callback::Update(state) => state,
        }
    }
}

/// The behaviour of the states of one machine.
///
/// The machine never looks inside a state value of type `S`; it hands the
/// value to the handler together with the caller's data of type `D`. A
/// handler describes itself by three specification functions: when a
/// callback may be made, what it may do to the data, and which transition
/// `update` asks for. Each executable callback has to agree with them.
/// Only the value returned by `update` moves the machine, and that value
/// depends on the state and the data alone: whatever else a state consults
/// has to be put into the data before the machine is updated.
///
/// The specification functions default to a handler that may always be
/// called, leaves the data alone and never asks for a transition. The
/// callbacks themselves have no default: a body can only be checked against
/// the specification functions of the handler it belongs to.
pub trait Handler<S: Clone, D> {
    /// Whether `call` may be made on `data`. A handler whose callbacks are
    /// total answers `true` throughout.
    open spec fn permits(&self, call: Callback<S>, data: D) -> bool {
        true
    }

    /// Whether `call`, made on the data `before`, may leave it as `after`.
    open spec fn effect(&self, call: Callback<S>, before: D, after: D) -> bool {
        after == before
    }

    /// The transition that `update` asks for when `state` runs on `data`.
    open spec fn request(&self, state: S, data: D) -> StateTransition<S> {
        StateTransition::Stay
    }

    /// Called when the state is first put on the stack.
    fn on_start(&self, state: &S, state_data: &mut D)
        requires
            self.permits(Callback::Start(*state), *old(state_data)),
        ensures
            self.effect(Callback::Start(*state), *old(state_data), *final(state_data)),
    ;

    /// Called when the state is removed from the stack.
    fn on_stop(&self, state: &S, state_data: &mut D)
        requires
            self.permits(Callback::Stop(*state), *old(state_data)),
        ensures
            self.effect(Callback::Stop(*state), *old(state_data), *final(state_data)),
    ;

    /// Called when a state is pushed over this one.
    fn on_pause(&self, state: &S, state_data: &mut D)
        requires
            self.permits(Callback::Pause(*state), *old(state_data)),
        ensures
            self.effect(Callback::Pause(*state), *old(state_data), *final(state_data)),
    ;

    /// Called when the state just on top of this one is popped.
    fn on_resume(&self, state: &S, state_data: &mut D)
        requires
            self.permits(Callback::Resume(*state), *old(state_data)),
        ensures
            self.effect(Callback::Resume(*state), *old(state_data), *final(state_data)),
    ;

    /// Called on the running state every time the machine is updated.
    fn update(&self, state: &S, state_data: &mut D) -> (request: StateTransition<S>)
        requires
            self.permits(Callback::Update(*state), *old(state_data)),
        ensures
            request == self.request(*state, *old(state_data)),
            self.effect(Callback::Update(*state), *old(state_data), *final(state_data)),
    ;
}

} // verus!
