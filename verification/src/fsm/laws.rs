//! What follows from the transition protocol, stated once and proved.
use vstd::prelude::*;
use crate::fsm::handler::{Callback, Handler, StateTransition};
use crate::fsm::protocol::{
    callbacks_of, callbacks_of_all, pushes, replays, stack_after, stack_after_all,
    stack_after_tick, tick_callbacks,
};

verus! {

/// Pushing `states` one after the other onto an empty stack leaves exactly
/// `states` on it, the last pushed on top. Every state is started once, in
/// push order, and every state but the last is paused once, immediately
/// before the state pushed over it is started. Nothing else is fired.
pub proof fn lemma_pushes_pause_then_start<S: Clone>(states: Seq<S>)
    ensures
        stack_after_all(pushes(states), Seq::empty()) == states,
        states.len() == 0 ==> callbacks_of_all(pushes(states), Seq::empty()).len() == 0,
        states.len() > 0 ==> callbacks_of_all(pushes(states), Seq::empty()).len() == 2
            * states.len() - 1,
        forall|i: int|
            0 <= i < states.len() ==> #[trigger] callbacks_of_all(pushes(states), Seq::empty())[2
                * i] == Callback::Start(states[i]),
        forall|i: int|
            1 <= i < states.len() ==> #[trigger] callbacks_of_all(pushes(states), Seq::empty())[2
                * i - 1] == Callback::Pause(states[i - 1]),
    decreases states.len(),
{
    let empty = Seq::<S>::empty();
    if states.len() == 0 {
        assert(stack_after_all(pushes(states), empty) =~= states);
    } else {
        let before = states.drop_last();
        let n = states.len() as int;
        lemma_pushes_pause_then_start(before);
        assert(pushes(states).drop_last() =~= pushes(before));
        assert(pushes(states).last() == StateTransition::Push(states.last()));
        assert(stack_after_all(pushes(states), empty) =~= states);
        let earlier = callbacks_of_all(pushes(before), empty);
        let latest = callbacks_of(StateTransition::Push(states.last()), before);
        let all = callbacks_of_all(pushes(states), empty);
        assert(all == earlier + latest);
        assert forall|i: int| 0 <= i < n implies #[trigger] all[2 * i] == Callback::Start(
            states[i],
        ) by {
            if i < n - 1 {
                assert(all[2 * i] == earlier[2 * i]);
                assert(before[i] == states[i]);
            }
        }
        assert forall|i: int| 1 <= i < n implies #[trigger] all[2 * i - 1] == Callback::Pause(
            states[i - 1],
        ) by {
            if i < n - 1 {
                assert(all[2 * i - 1] == earlier[2 * i - 1]);
                assert(before[i - 1] == states[i - 1]);
            }
        }
    }
}

/// `Pop` on a stack of one state empties the stack and stops that state.
/// Nothing is resumed, because nothing remains, and the machine no longer
/// runs.
pub proof fn lemma_pop_last_state<S: Clone>(stack: Seq<S>)
    requires
        stack.len() == 1,
    ensures
        stack_after(StateTransition::Pop, stack).len() == 0,
        callbacks_of(StateTransition::Pop, stack) == seq![Callback::Stop(stack[0])],
{
}

/// `Pop` on a stack of two or more states removes the top, stops it, and
/// then resumes the state that is the new top: two callbacks, in that order.
pub proof fn lemma_pop_stops_then_resumes<S: Clone>(stack: Seq<S>)
    requires
        stack.len() >= 2,
    ensures
        stack_after(StateTransition::Pop, stack) == stack.drop_last(),
        callbacks_of(StateTransition::Pop, stack) == seq![
            Callback::Stop(stack.last()),
            Callback::Resume(stack_after(StateTransition::Pop, stack).last()),
        ],
{
}

/// `Switch` on a stack that is not empty keeps its length: the top is
/// replaced and the states below stay. The old top is stopped, then the new
/// one is started; nothing is paused or resumed.
pub proof fn lemma_switch_stops_then_starts<S: Clone>(state: S, stack: Seq<S>)
    requires
        stack.len() > 0,
    ensures
        stack_after(StateTransition::Switch(state), stack).len() == stack.len(),
        stack_after(StateTransition::Switch(state), stack) == stack.update(
            stack.len() - 1,
            state,
        ),
        callbacks_of(StateTransition::Switch(state), stack) == seq![
            Callback::Stop(stack.last()),
            Callback::Start(state),
        ],
        forall|i: int|
            0 <= i < callbacks_of(StateTransition::Switch(state), stack).len() ==> {
                let call = #[trigger] callbacks_of(StateTransition::Switch(state), stack)[i];
                !(call is Pause) && !(call is Resume)
            },
{
    assert(stack.drop_last().push(state) =~= stack.update(stack.len() - 1, state));
}

/// `Quit` empties the stack whatever its length. It stops every state once,
/// from the top of the stack down to its bottom, and fires nothing else; on
/// an empty stack it fires nothing at all.
pub proof fn lemma_quit_stops_top_down<S: Clone>(stack: Seq<S>)
    ensures
        stack_after(StateTransition::Quit, stack).len() == 0,
        callbacks_of(StateTransition::Quit, stack).len() == stack.len(),
        forall|i: int|
            0 <= i < stack.len() ==> #[trigger] callbacks_of(StateTransition::Quit, stack)[i]
                == Callback::Stop(stack[stack.len() - 1 - i]),
{
}

/// An update of a machine whose stack is empty fires no callback, leaves
/// the stack empty and the data as it was, however often it is repeated.
pub proof fn lemma_update_stopped_machine<S: Clone, D, H: Handler<S, D>>(
    handler: &H,
    stack: Seq<S>,
    data: D,
)
    requires
        stack.len() == 0,
    ensures
        tick_callbacks(handler, stack, data).len() == 0,
        stack_after_tick(handler, stack, data) == stack,
        forall|after: D|
            replays(handler, tick_callbacks(handler, stack, data), data, after) <==> after == data,
{
}

/// Whatever the stack held, once the machine has quit every later update
/// finds it stopped: `Quit` followed by any number of updates fires only
/// the callbacks of the `Quit`.
pub proof fn lemma_quit_is_final<S: Clone, D, H: Handler<S, D>>(
    handler: &H,
    stack: Seq<S>,
    data: D,
)
    ensures
        tick_callbacks(handler, stack_after(StateTransition::Quit, stack), data).len() == 0,
        stack_after_tick(handler, stack_after(StateTransition::Quit, stack), data).len() == 0,
{
}

} // verus!
