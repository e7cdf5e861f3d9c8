//! The handlers of the partner's two states, and the one that the machine
//! is run with.
use vstd::prelude::*;
use crate::fsm::handler::{Callback, Handler, StateTransition};
use crate::partner::agent::{chore_note, Partner, PartnerNote, PartnerState};

verus! {

/// `after` is `before` with `notes` appended to the journal.
pub open spec fn says(before: Partner, notes: Seq<PartnerNote>, after: Partner) -> bool {
    &&& after.name@ == before.name@
    &&& after.location == before.location
    &&& after.urge == before.urge
    &&& after.chore == before.chore
    &&& after.journal@ =~= before.journal@ + notes
}

/// What the partner says on `call` when `state` handles it.
pub open spec fn notes_of(
    state: PartnerState,
    call: Callback<PartnerState>,
    partner: Partner,
) -> Seq<PartnerNote> {
    match state {
        PartnerState::DoHouseWork => match call {
            Callback::Update(_) => if partner.urge {
                Seq::empty()
            } else {
                seq![chore_note(partner.chore)]
            },
            _ => Seq::empty(),
        },
        PartnerState::VisitBathroom => match call {
            Callback::Start(_) => seq![PartnerNote::WalkingToBathroom],
            Callback::Resume(_) => seq![PartnerNote::WalkingToBathroom],
            Callback::Update(_) => seq![PartnerNote::Relieved],
            Callback::Stop(_) => seq![PartnerNote::LeavingBathroom],
            Callback::Pause(_) => Seq::empty(),
        },
    }
}

/// The transition that an update of `state` asks for.
pub open spec fn request_of(state: PartnerState, partner: Partner) -> StateTransition<
    PartnerState,
> {
    match state {
        PartnerState::DoHouseWork => if partner.urge {
            StateTransition::Push(PartnerState::VisitBathroom)
        } else {
            StateTransition::Stay
        },
        PartnerState::VisitBathroom => StateTransition::Pop,
    }
}

/// Do whatever chore has been planned, unless nature calls: then visit the
/// bathroom first.
pub struct DoHouseWork;

impl Handler<PartnerState, Partner> for DoHouseWork {
    open spec fn effect(&self, call: Callback<PartnerState>, before: Partner, after: Partner) -> bool {
        says(before, notes_of(PartnerState::DoHouseWork, call, before), after)
    }

    open spec fn request(&self, state: PartnerState, data: Partner) -> StateTransition<
        PartnerState,
    > {
        request_of(PartnerState::DoHouseWork, data)
    }

    fn on_start(&self, state: &PartnerState, state_data: &mut Partner) {
    }

    fn on_stop(&self, state: &PartnerState, state_data: &mut Partner) {
    }

    fn on_pause(&self, state: &PartnerState, state_data: &mut Partner) {
    }

    fn on_resume(&self, state: &PartnerState, state_data: &mut Partner) {
    }

    fn update(&self, state: &PartnerState, state_data: &mut Partner) -> (request: StateTransition<
        PartnerState,
    >) {
        if state_data.urge {
            return StateTransition::Push(PartnerState::VisitBathroom);
        }
        let note = state_data.chore.note();
        state_data.log(note);
        StateTransition::Stay
    }
}

/// Walk to the bathroom, use it, and go back to what was interrupted.
pub struct VisitBathroom;

impl Handler<PartnerState, Partner> for VisitBathroom {
    open spec fn effect(&self, call: Callback<PartnerState>, before: Partner, after: Partner) -> bool {
        says(before, notes_of(PartnerState::VisitBathroom, call, before), after)
    }

    open spec fn request(&self, state: PartnerState, data: Partner) -> StateTransition<
        PartnerState,
    > {
        request_of(PartnerState::VisitBathroom, data)
    }

    fn on_start(&self, state: &PartnerState, state_data: &mut Partner) {
        state_data.log(PartnerNote::WalkingToBathroom);
    }

    fn on_stop(&self, state: &PartnerState, state_data: &mut Partner) {
        state_data.log(PartnerNote::LeavingBathroom);
    }

    fn on_pause(&self, state: &PartnerState, state_data: &mut Partner) {
    }

    fn on_resume(&self, state: &PartnerState, state_data: &mut Partner) {
        self.on_start(state, state_data);
    }

    fn update(&self, state: &PartnerState, state_data: &mut Partner) -> (request: StateTransition<
        PartnerState,
    >) {
        state_data.log(PartnerNote::Relieved);
        StateTransition::Pop
    }
}

/// The partner's handler: hands every callback to the handler of the state
/// that it is made for.
pub struct PartnerHandler;

impl Handler<PartnerState, Partner> for PartnerHandler {
    open spec fn effect(&self, call: Callback<PartnerState>, before: Partner, after: Partner) -> bool {
        says(before, notes_of(call.state(), call, before), after)
    }

    open spec fn request(&self, state: PartnerState, data: Partner) -> StateTransition<
        PartnerState,
    > {
        request_of(state, data)
    }

    fn on_start(&self, state: &PartnerState, state_data: &mut Partner) {
        match state {
            PartnerState::DoHouseWork => DoHouseWork.on_start(state, state_data),
            PartnerState::VisitBathroom => VisitBathroom.on_start(state, state_data),
        }
    }

    fn on_stop(&self, state: &PartnerState, state_data: &mut Partner) {
        match state {
            PartnerState::DoHouseWork => DoHouseWork.on_stop(state, state_data),
            PartnerState::VisitBathroom => VisitBathroom.on_stop(state, state_data),
        }
    }

    fn on_pause(&self, state: &PartnerState, state_data: &mut Partner) {
        match state {
            PartnerState::DoHouseWork => DoHouseWork.on_pause(state, state_data),
            PartnerState::VisitBathroom => VisitBathroom.on_pause(state, state_data),
        }
    }

    fn on_resume(&self, state: &PartnerState, state_data: &mut Partner) {
        match state {
            PartnerState::DoHouseWork => DoHouseWork.on_resume(state, state_data),
            PartnerState::VisitBathroom => VisitBathroom.on_resume(state, state_data),
        }
    }

    fn update(&self, state: &PartnerState, state_data: &mut Partner) -> (request: StateTransition<
        PartnerState,
    >) {
        match state {
            PartnerState::DoHouseWork => DoHouseWork.update(state, state_data),
            PartnerState::VisitBathroom => VisitBathroom.update(state, state_data),
        }
    }
}

} // verus!
