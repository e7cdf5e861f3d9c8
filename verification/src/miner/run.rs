//! Running one miner: seeding the machine and updating it safely.
use vstd::prelude::*;
use crate::fsm::handler::{Callback, Handler, StateTransition};
use crate::fsm::machine::StateMachine;
use crate::fsm::protocol::{
    admits, callbacks_of, lemma_admits_first_call, lemma_admits_permitted_calls,
    lemma_replays_first_call, lemma_single_call, lemma_transition_fires_no_update, replays,
    stack_after_tick, tick_callbacks,
};
use crate::fsm::stack::StateStack;
use crate::miner::agent::{Location, MinerView, THIRST_LEVEL};
use crate::miner::handlers::MinerHandler;
use crate::miner::states::{
    arrival_note, can_update, departure_note, miner_after_update, notes_of_update,
    request_after_update, unchanged, workplace, MinerNote, MinerState, MinerStateData,
};

verus! {

/// A new miner and its machine: at the shack with nothing to its name, and
/// about to sleep.
pub fn init_miner() -> (fresh: (StateStack<MinerState>, MinerStateData))
    ensures
        fresh.0@ == seq![MinerState::GoHomeAndSleepTilRested],
        fresh.1.location == Location::Shack,
        fresh.1.miner@ == (MinerView { gold: 0, bank: 0, thirst: 0, fatigue: 0 }),
        fresh.1.journal@ == Seq::<MinerNote>::empty(),
{
    (StateStack::new_initial_state(MinerState::GoHomeAndSleepTilRested), MinerStateData::new())
}

/// The miner's machine can be updated whenever the counters leave room for
/// the update of the running state: whatever transition follows, its
/// callbacks are always permitted.
pub proof fn lemma_update_admitted(stack: Seq<MinerState>, data: MinerStateData)
    requires
        stack.len() > 0 ==> can_update(stack.last(), data.miner@),
    ensures
        admits(&MinerHandler, tick_callbacks(&MinerHandler, stack, data), data),
{
    let handler = &MinerHandler;
    if stack.len() > 0 {
        let rest = callbacks_of(handler.request(stack.last(), data), stack);
        lemma_transition_fires_no_update(handler.request(stack.last(), data), stack);
        assert forall|mid: MinerStateData|
            #![trigger handler.effect(Callback::Update(stack.last()), data, mid)]
            handler.effect(Callback::Update(stack.last()), data, mid) implies admits(
            handler,
            rest,
            mid,
        ) by {
            lemma_admits_permitted_calls(handler, rest, mid);
        }
        lemma_admits_first_call(handler, Callback::Update(stack.last()), rest, data);
    }
}

/// What one update does to a miner whose machine runs `state` and nothing
/// below it: the counters move as the state says, the miner says what the
/// state says, and where the state asks for another one, the miner takes
/// leave and walks to the place of the next state.
pub open spec fn miner_tick(state: MinerState, before: MinerStateData, after: MinerStateData) -> bool {
    let said = before.journal@ + notes_of_update(state, before.miner@);
    &&& after.miner@ == miner_after_update(state, before.miner@)
    &&& match request_after_update(state, before.miner@) {
        StateTransition::Switch(next) => {
            &&& after.location == workplace(next)
            &&& after.journal@ =~= if before.location == workplace(next) {
                said.push(departure_note(state))
            } else {
                said.push(departure_note(state)).push(arrival_note(next))
            }
        },
        StateTransition::Quit => {
            &&& after.location == before.location
            &&& after.journal@ =~= said.push(departure_note(state))
        },
        _ => {
            &&& after.location == before.location
            &&& after.journal@ =~= said
        },
    }
}

/// The miner's machine never grows: no state of the miner pushes another
/// one, so a machine seeded with one state runs one state until it quits.
pub proof fn lemma_stack_never_grows(stack: Seq<MinerState>, data: MinerStateData)
    ensures
        stack_after_tick(&MinerHandler, stack, data).len() <= stack.len(),
        stack.len() == 1 ==> stack_after_tick(&MinerHandler, stack, data).len() == 1 || (
        stack[0] == MinerState::QuenchThirst && data.miner@.thirst + 1 <= 5),
{
}

/// What holds of a miner that came to its state through the machine: the
/// saloon is only entered out of thirst.
pub open spec fn came_by_machine(state: MinerState, miner: MinerView) -> bool {
    state == MinerState::QuenchThirst ==> miner.thirst > THIRST_LEVEL
}

/// A miner seeded at home never gives up: every update of a miner that came
/// to its state through the machine asks to stay or to switch, never to
/// quit, and leaves a miner of which the same holds. Only a miner put into
/// the saloon by hand can find itself there without thirst.
pub proof fn lemma_miner_never_quits(state: MinerState, miner: MinerView)
    requires
        came_by_machine(state, miner),
    ensures
        !(request_after_update(state, miner) is Quit),
        !(request_after_update(state, miner) is Pop),
        !(request_after_update(state, miner) is Push),
        request_after_update(state, miner) matches StateTransition::Switch(next)
            ==> came_by_machine(next, miner_after_update(state, miner)),
        request_after_update(state, miner) is Stay ==> came_by_machine(
            state,
            miner_after_update(state, miner),
        ),
        came_by_machine(
            MinerState::GoHomeAndSleepTilRested,
            MinerView { gold: 0, bank: 0, thirst: 0, fatigue: 0 },
        ),
{
}

/// An update of a machine that runs one state of the miner is one
/// [`miner_tick`] of that state.
pub proof fn lemma_update_is_miner_tick(
    state: MinerState,
    before: MinerStateData,
    after: MinerStateData,
)
    requires
        replays(
            &MinerHandler,
            tick_callbacks(&MinerHandler, seq![state], before),
            before,
            after,
        ),
    ensures
        miner_tick(state, before, after),
{
    let handler = &MinerHandler;
    let stack = seq![state];
    let request = handler.request(state, before);
    let rest = callbacks_of(request, stack);
    lemma_replays_first_call(handler, Callback::Update(state), rest, before, after);
    let mid = choose|mid: MinerStateData|
        #![trigger handler.effect(Callback::Update(state), before, mid)]
        handler.effect(Callback::Update(state), before, mid) && replays(handler, rest, mid, after);
    match request {
        StateTransition::Switch(next) => {
            let stop = Callback::Stop(state);
            let start = Callback::Start(next);
            assert(rest =~= seq![stop] + seq![start]);
            lemma_replays_first_call(handler, stop, seq![start], mid, after);
            let left = choose|left: MinerStateData|
                #![trigger handler.effect(stop, mid, left)]
                handler.effect(stop, mid, left) && replays(handler, seq![start], left, after);
            lemma_single_call(handler, start, left, after);
        },
        StateTransition::Quit => {
            assert(rest =~= seq![Callback::Stop(state)]);
            lemma_single_call(handler, Callback::Stop(state), mid, after);
        },
        _ => {
            assert(rest.len() == 0);
        },
    }
}

/// Updates the miner's machine once, unless a counter would leave the range
/// of its machine integer: then nothing happens and the answer is `false`.
pub fn update_miner(
    state_stack: &mut StateStack<MinerState>,
    state_data: &mut MinerStateData,
) -> (updated: bool)
    ensures
        updated <==> old(state_stack)@.len() == 0 || can_update(
            old(state_stack)@.last(),
            old(state_data).miner@,
        ),
        !updated ==> final(state_stack)@ == old(state_stack)@ && unchanged(
            *old(state_data),
            *final(state_data),
        ),
        updated ==> final(state_stack)@ == stack_after_tick(
            &MinerHandler,
            old(state_stack)@,
            *old(state_data),
        ) && replays(
            &MinerHandler,
            tick_callbacks(&MinerHandler, old(state_stack)@, *old(state_data)),
            *old(state_data),
            *final(state_data),
        ),
        updated && old(state_stack)@.len() == 1 ==> miner_tick(
            old(state_stack)@[0],
            *old(state_data),
            *final(state_data),
        ),
{
    let ready = match state_stack.last() {
        Some(state) => state_data.can_update(state),
        None => true,
    };
    if ready {
        proof {
            lemma_update_admitted(state_stack@, *state_data);
        }
        StateMachine::update(&MinerHandler, state_stack, state_data);
        proof {
            if old(state_stack)@.len() == 1 {
                assert(old(state_stack)@ =~= seq![old(state_stack)@[0]]);
                lemma_update_is_miner_tick(
                    old(state_stack)@[0],
                    *old(state_data),
                    *state_data,
                );
            }
        }
    }
    ready
}

} // verus!
