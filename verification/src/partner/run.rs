//! Running the partner: one planned update of the machine.
use vstd::prelude::*;
use crate::fsm::handler::{Callback, Handler};
use crate::fsm::machine::StateMachine;
use crate::fsm::protocol::{
    admits, lemma_admits_permitted_calls, replays, stack_after_tick, tick_callbacks,
};
use crate::fsm::stack::StateStack;
use crate::partner::agent::{chore_note, Partner, PartnerChore, PartnerNote, PartnerState};
use crate::partner::handlers::{notes_of, says, PartnerHandler};

verus! {

/// `after` is `before` with the next update decided: nature calls if `urge`
/// says so, and the chore is one that the dice can pick.
pub open spec fn planned(before: Partner, urge: bool, after: Partner) -> bool {
    &&& after.urge == urge
    &&& after.chore == PartnerChore::Mopping || after.chore == PartnerChore::Washing
    &&& after.name@ == before.name@
    &&& after.location == before.location
    &&& after.journal@ == before.journal@
}

/// The partner's machine can always be updated: none of the callbacks asks
/// for anything.
pub proof fn lemma_update_admitted(stack: Seq<PartnerState>, partner: Partner)
    ensures
        admits(&PartnerHandler, tick_callbacks(&PartnerHandler, stack, partner), partner),
{
    let handler = &PartnerHandler;
    lemma_admits_permitted_calls(handler, tick_callbacks(handler, stack, partner), partner);
}

/// What the partner says, in order, while `calls` are made one after the
/// other. The notes depend on what has been planned and on nothing that a
/// callback changes.
pub open spec fn notes_of_all(calls: Seq<Callback<PartnerState>>, partner: Partner) -> Seq<
    PartnerNote,
>
    decreases calls.len(),
{
    if calls.len() == 0 {
        Seq::empty()
    } else {
        notes_of_all(calls.drop_last(), partner) + notes_of(
            calls.last().state(),
            calls.last(),
            partner,
        )
    }
}

/// What the partner says during one update of a machine that holds
/// `stack`: a chore done, or the way to the bathroom, or the relief and the
/// way back.
pub open spec fn notes_of_tick(stack: Seq<PartnerState>, partner: Partner) -> Seq<PartnerNote> {
    if stack.len() == 0 {
        Seq::empty()
    } else if stack.last() == PartnerState::DoHouseWork {
        if partner.urge {
            seq![PartnerNote::WalkingToBathroom]
        } else {
            seq![chore_note(partner.chore)]
        }
    } else if stack.len() >= 2 && stack[stack.len() - 2] == PartnerState::VisitBathroom {
        seq![PartnerNote::Relieved, PartnerNote::LeavingBathroom, PartnerNote::WalkingToBathroom]
    } else {
        seq![PartnerNote::Relieved, PartnerNote::LeavingBathroom]
    }
}

/// Whatever callbacks the partner's handler takes, all they do is add
/// their notes to the journal, in order.
pub proof fn lemma_replay_says(
    calls: Seq<Callback<PartnerState>>,
    before: Partner,
    after: Partner,
)
    requires
        replays(&PartnerHandler, calls, before, after),
    ensures
        says(before, notes_of_all(calls, before), after),
    decreases calls.len(),
{
    let handler = &PartnerHandler;
    if calls.len() > 0 {
        let mid = choose|mid: Partner|
            #![trigger handler.effect(calls.last(), mid, after)]
            replays(handler, calls.drop_last(), before, mid) && handler.effect(
                calls.last(),
                mid,
                after,
            );
        lemma_replay_says(calls.drop_last(), before, mid);
    }
}

/// The notes of one update, callback by callback, are the notes of
/// [`notes_of_tick`].
pub proof fn lemma_notes_of_tick(stack: Seq<PartnerState>, partner: Partner)
    ensures
        notes_of_all(tick_callbacks(&PartnerHandler, stack, partner), partner) =~= notes_of_tick(
            stack,
            partner,
        ),
{
    reveal_with_fuel(notes_of_all, 4);
    let calls = tick_callbacks(&PartnerHandler, stack, partner);
    if calls.len() == 2 {
        assert(calls.drop_last().len() == 1);
    } else if calls.len() == 3 {
        assert(calls.drop_last().len() == 2);
        assert(calls.drop_last().drop_last().len() == 1);
    }
}

/// The partner's machine never stops: only a bathroom visit ends, and
/// there is always housework below it.
pub proof fn lemma_never_stops(stack: Seq<PartnerState>, partner: Partner)
    requires
        stack.len() > 0,
        stack[0] == PartnerState::DoHouseWork,
    ensures
        stack_after_tick(&PartnerHandler, stack, partner).len() > 0,
        stack_after_tick(&PartnerHandler, stack, partner)[0] == PartnerState::DoHouseWork,
{
}

/// Plans the partner's next update and makes it. Whether nature calls is
/// the caller's to say; the chore is picked at random here. Whatever was
/// picked, the machine is updated once on the partner as planned.
pub fn update_partner(
    state_stack: &mut StateStack<PartnerState>,
    partner: &mut Partner,
    urge: bool,
)
    ensures
        exists|mid: Partner|
            #![trigger planned(*old(partner), urge, mid)]
            {
                &&& planned(*old(partner), urge, mid)
                &&& final(state_stack)@ == stack_after_tick(
                    &PartnerHandler,
                    old(state_stack)@,
                    mid,
                )
                &&& replays(
                    &PartnerHandler,
                    tick_callbacks(&PartnerHandler, old(state_stack)@, mid),
                    mid,
                    *final(partner),
                )
                &&& says(mid, notes_of_tick(old(state_stack)@, mid), *final(partner))
            },
{
    partner.plan(urge);
    let ghost mid = *partner;
    proof {
        lemma_update_admitted(state_stack@, mid);
    }
    StateMachine::update(&PartnerHandler, state_stack, partner);
    proof {
        lemma_replay_says(
            tick_callbacks(&PartnerHandler, old(state_stack)@, mid),
            mid,
            *partner,
        );
        lemma_notes_of_tick(old(state_stack)@, mid);
        assert(planned(*old(partner), urge, mid));
    }
}

} // verus!
