//! The dispatcher: asks the running state what to do and applies the answer.
use vstd::prelude::*;
use crate::fsm::handler::{Callback, Handler, StateTransition};
use crate::fsm::protocol::{
    admits, callbacks_of, lemma_admits_first_call, lemma_next_call_permitted,
    lemma_replays_first_call, lemma_single_call, replays, stack_after, stack_after_tick,
    tick_callbacks, unwinding,
};
use crate::fsm::stack::StateStack;

verus! {

/// The state machine. It owns nothing: the stack of states and the data
/// they work on belong to the caller and are passed to every call.
pub struct StateMachine;

impl StateMachine {
    /// Returns if the state machine still has states in its stack.
    pub fn is_running<S: Clone>(state_stack: &StateStack<S>) -> (running: bool)
        ensures
            running <==> state_stack@.len() > 0,
    {
        !state_stack.is_empty()
    }

    /// Updates the state at the top of the stack with the provided data.
    /// If the state returns a transition, performs it. Does nothing on an
    /// empty stack.
    pub fn update<S: Clone, D, H: Handler<S, D>>(
        handler: &H,
        state_stack: &mut StateStack<S>,
        state_data: &mut D,
    )
        requires
            admits(
                handler,
                tick_callbacks(handler, old(state_stack)@, *old(state_data)),
                *old(state_data),
            ),
        ensures
            final(state_stack)@ == stack_after_tick(
                handler,
                old(state_stack)@,
                *old(state_data),
            ),
            replays(
                handler,
                tick_callbacks(handler, old(state_stack)@, *old(state_data)),
                *old(state_data),
                *final(state_data),
            ),
            old(state_stack)@.len() == 0 ==> final(state_stack)@ == old(state_stack)@
                && *final(state_data) == *old(state_data),
    {
        let ghost stack = state_stack@;
        let ghost data = *state_data;
        let trans = match state_stack.last() {
            Some(state) => {
                proof {
                    lemma_admits_first_call(
                        handler,
                        Callback::Update(stack.last()),
                        callbacks_of(handler.request(stack.last(), data), stack),
                        data,
                    );
                }
                handler.update(state, state_data)
            },
            None => StateTransition::Stay,
        };
        Self::transition(handler, trans, state_stack, state_data);
        proof {
            if stack.len() > 0 {
                lemma_replays_first_call(
                    handler,
                    Callback::Update(stack.last()),
                    callbacks_of(handler.request(stack.last(), data), stack),
                    data,
                    *state_data,
                );
            }
        }
    }

    /// Applies `request` to the stack, firing the callbacks that belong to
    /// it in their fixed order.
    pub fn transition<S: Clone, D, H: Handler<S, D>>(
        handler: &H,
        request: StateTransition<S>,
        state_stack: &mut StateStack<S>,
        state_data: &mut D,
    )
        requires
            admits(handler, callbacks_of(request, old(state_stack)@), *old(state_data)),
        ensures
            final(state_stack)@ == stack_after(request, old(state_stack)@),
            replays(
                handler,
                callbacks_of(request, old(state_stack)@),
                *old(state_data),
                *final(state_data),
            ),
    {
        match request {
            StateTransition::Stay => (),
            StateTransition::Pop => Self::pop(handler, state_stack, state_data),
            StateTransition::Push(state) => Self::push(handler, state, state_stack, state_data),
            StateTransition::Switch(state) => Self::switch(
                handler,
                state,
                state_stack,
                state_data,
            ),
            StateTransition::Quit => Self::stop(handler, state_stack, state_data),
        }
    }

    /// Replaces the state on top of the stack by `state`: stops the old top,
    /// if there is one, then starts `state`. Nothing is paused or resumed.
    pub fn switch<S: Clone, D, H: Handler<S, D>>(
        handler: &H,
        state: S,
        state_stack: &mut StateStack<S>,
        state_data: &mut D,
    )
        requires
            admits(
                handler,
                callbacks_of(StateTransition::Switch(state), old(state_stack)@),
                *old(state_data),
            ),
        ensures
            final(state_stack)@ == stack_after(StateTransition::Switch(state), old(state_stack)@),
            replays(
                handler,
                callbacks_of(StateTransition::Switch(state), old(state_stack)@),
                *old(state_data),
                *final(state_data),
            ),
    {
        let ghost stack = state_stack@;
        let ghost data = *state_data;
        let ghost started = Callback::Start(state);
        proof {
            if stack.len() > 0 {
                lemma_pair(handler, Callback::Stop(stack.last()), started, data);
            } else {
                lemma_single_call(handler, started, data, data);
            }
        }
        if let Some(top) = state_stack.pop() {
            handler.on_stop(&top, state_data);
        }
        state_stack.push(state);
        if let Some(top) = state_stack.last() {
            handler.on_start(top, state_data);
        }
        proof {
            if stack.len() == 0 {
                lemma_single_call(handler, started, data, *state_data);
            }
        }
    }

    /// Push a state on the stack and start it.
    /// Pauses any previously active state.
    pub fn push<S: Clone, D, H: Handler<S, D>>(
        handler: &H,
        state: S,
        state_stack: &mut StateStack<S>,
        state_data: &mut D,
    )
        requires
            admits(
                handler,
                callbacks_of(StateTransition::Push(state), old(state_stack)@),
                *old(state_data),
            ),
        ensures
            final(state_stack)@ == old(state_stack)@.push(state),
            replays(
                handler,
                callbacks_of(StateTransition::Push(state), old(state_stack)@),
                *old(state_data),
                *final(state_data),
            ),
    {
        let ghost stack = state_stack@;
        let ghost data = *state_data;
        let ghost started = Callback::Start(state);
        proof {
            if stack.len() > 0 {
                lemma_pair(handler, Callback::Pause(stack.last()), started, data);
            } else {
                lemma_single_call(handler, started, data, data);
            }
        }
        if let Some(top) = state_stack.last() {
            handler.on_pause(top, state_data);
        }
        state_stack.push(state);
        if let Some(top) = state_stack.last() {
            handler.on_start(top, state_data);
        }
        proof {
            if stack.len() == 0 {
                lemma_single_call(handler, started, data, *state_data);
            }
        }
    }

    /// Removes the state on top of the stack and stops it, then resumes the
    /// state below it, if there is one. Does nothing on an empty stack.
    pub fn pop<S: Clone, D, H: Handler<S, D>>(
        handler: &H,
        state_stack: &mut StateStack<S>,
        state_data: &mut D,
    )
        requires
            admits(
                handler,
                callbacks_of(StateTransition::Pop, old(state_stack)@),
                *old(state_data),
            ),
        ensures
            final(state_stack)@ == stack_after(StateTransition::Pop, old(state_stack)@),
            replays(
                handler,
                callbacks_of(StateTransition::Pop, old(state_stack)@),
                *old(state_data),
                *final(state_data),
            ),
    {
        let ghost stack = state_stack@;
        let ghost data = *state_data;
        proof {
            if stack.len() >= 2 {
                lemma_pair(
                    handler,
                    Callback::Stop(stack.last()),
                    Callback::Resume(stack[stack.len() - 2]),
                    data,
                );
            } else if stack.len() == 1 {
                lemma_single_call(handler, Callback::Stop(stack.last()), data, data);
            }
        }
        if let Some(state) = state_stack.pop() {
            handler.on_stop(&state, state_data);
        }
        if let Some(state) = state_stack.last() {
            handler.on_resume(state, state_data);
        }
        proof {
            if stack.len() == 1 {
                lemma_single_call(handler, Callback::Stop(stack.last()), data, *state_data);
            }
        }
    }

    /// Removes all currently running states from the stack, stopping each
    /// of them, from the top down. Nothing is resumed on the way.
    pub fn stop<S: Clone, D, H: Handler<S, D>>(
        handler: &H,
        state_stack: &mut StateStack<S>,
        state_data: &mut D,
    )
        requires
            admits(handler, unwinding(old(state_stack)@), *old(state_data)),
        ensures
            final(state_stack)@ == Seq::<S>::empty(),
            replays(handler, unwinding(old(state_stack)@), *old(state_data), *final(state_data)),
    {
        let ghost stack = state_stack@;
        let ghost data = *state_data;
        let ghost calls = unwinding(stack);
        let ghost mut fired: int = 0;
        proof {
            assert(calls.take(0) =~= Seq::<Callback<S>>::empty());
            assert(stack.take(stack.len() as int) =~= stack);
        }
        loop
            invariant
                calls == unwinding(stack),
                admits(handler, calls, data),
                0 <= fired <= stack.len(),
                state_stack@ == stack.take(stack.len() - fired),
                replays(handler, calls.take(fired), data, *state_data),
            ensures
                state_stack@ == Seq::<S>::empty(),
                replays(handler, calls, data, *state_data),
            decreases state_stack@.len(),
        {
            let ghost reached = *state_data;
            match state_stack.pop() {
                Some(state) => {
                    proof {
                        lemma_next_call_permitted(handler, calls, data, fired, reached);
                        assert(stack.take(stack.len() - fired).drop_last() =~= stack.take(
                            stack.len() - (fired + 1),
                        ));
                    }
                    handler.on_stop(&state, state_data);
                    proof {
                        let longer = calls.take(fired + 1);
                        assert(longer.drop_last() =~= calls.take(fired));
                        assert(longer.last() == Callback::Stop(state));
                        assert(replays(handler, longer.drop_last(), data, reached)
                            && handler.effect(longer.last(), reached, *state_data));
                        fired = fired + 1;
                    }
                },
                None => {
                    proof {
                        assert(calls.take(fired) =~= calls);
                        assert(state_stack@ =~= Seq::<S>::empty());
                    }
                    break ;
                },
            }
        }
    }
}

/// What `admits` and `replays` say of a run of two callbacks.
proof fn lemma_pair<S: Clone, D, H: Handler<S, D>>(
    handler: &H,
    first: Callback<S>,
    second: Callback<S>,
    before: D,
)
    ensures
        admits(handler, seq![first, second], before) ==> handler.permits(first, before),
        forall|mid: D|
            admits(handler, seq![first, second], before) && #[trigger] handler.effect(
                first,
                before,
                mid,
            ) ==> handler.permits(second, mid),
        forall|mid: D, after: D|
            handler.effect(first, before, mid) && #[trigger] handler.effect(second, mid, after)
                ==> replays(handler, seq![first, second], before, after),
{
    assert(seq![first, second] =~= seq![first] + seq![second]);
    lemma_admits_first_call(handler, first, seq![second], before);
    assert forall|mid: D|
        admits(handler, seq![first, second], before) && #[trigger] handler.effect(
            first,
            before,
            mid,
        ) implies handler.permits(second, mid) by {
        lemma_single_call(handler, second, mid, mid);
    }
    assert forall|mid: D, after: D|
        handler.effect(first, before, mid) && #[trigger] handler.effect(
            second,
            mid,
            after,
        ) implies replays(handler, seq![first, second], before, after) by {
        lemma_single_call(handler, second, mid, after);
        lemma_replays_first_call(handler, first, seq![second], before, after);
    }
}

} // verus!
