//! The handlers: one for each of the miner's states, and the one that the
//! machine is run with, which picks among them by the state it is given.
use vstd::prelude::*;
use crate::fsm::handler::{Callback, Handler, StateTransition};
use crate::miner::agent::{Location, COMFORT_LEVEL};
use crate::miner::states::{
    request_after_update, state_effect, state_permits, MinerNote, MinerState, MinerStateData,
};

verus! {

/// Go to the goldmine and dig, one nugget per update, until the pockets are
/// full or thirst wins.
pub struct EnterMineAndDigForNugget;

impl Handler<MinerState, MinerStateData> for EnterMineAndDigForNugget {
    open spec fn permits(&self, call: Callback<MinerState>, data: MinerStateData) -> bool {
        state_permits(MinerState::EnterMineAndDigForNugget, call, data)
    }

    open spec fn effect(
        &self,
        call: Callback<MinerState>,
        before: MinerStateData,
        after: MinerStateData,
    ) -> bool {
        state_effect(MinerState::EnterMineAndDigForNugget, call, before, after)
    }

    open spec fn request(&self, state: MinerState, data: MinerStateData) -> StateTransition<
        MinerState,
    > {
        request_after_update(MinerState::EnterMineAndDigForNugget, data.miner@)
    }

    fn on_start(&self, state: &MinerState, state_data: &mut MinerStateData) {
        if state_data.location != Location::Goldmine {
            state_data.journal.push(MinerNote::WalkingToGoldmine);
            state_data.location = Location::Goldmine;
        }
    }

    fn on_stop(&self, state: &MinerState, state_data: &mut MinerStateData) {
        state_data.journal.push(MinerNote::LeavingGoldmine);
    }

    fn on_pause(&self, state: &MinerState, state_data: &mut MinerStateData) {
    }

    fn on_resume(&self, state: &MinerState, state_data: &mut MinerStateData) {
        self.on_start(state, state_data);
    }

    fn update(&self, state: &MinerState, state_data: &mut MinerStateData) -> (request:
        StateTransition<MinerState>) {
        proof {
            state_data.miner.lemma_counters_in_range();
        }
        state_data.miner.increase_thirst();
        state_data.miner.add_to_gold_carried(1);
        state_data.miner.increase_fatigue();
        state_data.journal.push(MinerNote::PickedUpNugget);
        if state_data.miner.pockets_full() {
            StateTransition::Switch(MinerState::VisitBankAndDepositGold)
        } else if state_data.miner.thirsty() {
            StateTransition::Switch(MinerState::QuenchThirst)
        } else {
            StateTransition::Stay
        }
    }
}

/// Go to the bank and deposit the gold carried; then home if that made the
/// miner comfortable, back to the mine if not.
pub struct VisitBankAndDepositGold;

impl Handler<MinerState, MinerStateData> for VisitBankAndDepositGold {
    open spec fn permits(&self, call: Callback<MinerState>, data: MinerStateData) -> bool {
        state_permits(MinerState::VisitBankAndDepositGold, call, data)
    }

    open spec fn effect(
        &self,
        call: Callback<MinerState>,
        before: MinerStateData,
        after: MinerStateData,
    ) -> bool {
        state_effect(MinerState::VisitBankAndDepositGold, call, before, after)
    }

    open spec fn request(&self, state: MinerState, data: MinerStateData) -> StateTransition<
        MinerState,
    > {
        request_after_update(MinerState::VisitBankAndDepositGold, data.miner@)
    }

    fn on_start(&self, state: &MinerState, state_data: &mut MinerStateData) {
        if state_data.location != Location::Bank {
            state_data.journal.push(MinerNote::GoingToBank);
            state_data.location = Location::Bank;
        }
    }

    fn on_stop(&self, state: &MinerState, state_data: &mut MinerStateData) {
        state_data.journal.push(MinerNote::LeavingBank);
    }

    fn on_pause(&self, state: &MinerState, state_data: &mut MinerStateData) {
    }

    fn on_resume(&self, state: &MinerState, state_data: &mut MinerStateData) {
        self.on_start(state, state_data);
    }

    fn update(&self, state: &MinerState, state_data: &mut MinerStateData) -> (request:
        StateTransition<MinerState>) {
        proof {
            state_data.miner.lemma_counters_in_range();
        }
        state_data.miner.increase_thirst();
        state_data.miner.move_gold_to_bank();
        state_data.journal.push(MinerNote::DepositedGold { savings: state_data.miner.wealth() });
        if state_data.miner.wealth() >= COMFORT_LEVEL {
            state_data.journal.push(MinerNote::RichEnough);
            StateTransition::Switch(MinerState::GoHomeAndSleepTilRested)
        } else {
            StateTransition::Switch(MinerState::EnterMineAndDigForNugget)
        }
    }
}

/// Go home and sleep, one update at a time, until rested; then back to the
/// mine.
pub struct GoHomeAndSleepTilRested;

impl Handler<MinerState, MinerStateData> for GoHomeAndSleepTilRested {
    open spec fn permits(&self, call: Callback<MinerState>, data: MinerStateData) -> bool {
        state_permits(MinerState::GoHomeAndSleepTilRested, call, data)
    }

    open spec fn effect(
        &self,
        call: Callback<MinerState>,
        before: MinerStateData,
        after: MinerStateData,
    ) -> bool {
        state_effect(MinerState::GoHomeAndSleepTilRested, call, before, after)
    }

    open spec fn request(&self, state: MinerState, data: MinerStateData) -> StateTransition<
        MinerState,
    > {
        request_after_update(MinerState::GoHomeAndSleepTilRested, data.miner@)
    }

    fn on_start(&self, state: &MinerState, state_data: &mut MinerStateData) {
        if state_data.location != Location::Shack {
            state_data.journal.push(MinerNote::WalkingHome);
            state_data.location = Location::Shack;
        }
    }

    fn on_stop(&self, state: &MinerState, state_data: &mut MinerStateData) {
        state_data.journal.push(MinerNote::LeavingHouse);
    }

    fn on_pause(&self, state: &MinerState, state_data: &mut MinerStateData) {
    }

    fn on_resume(&self, state: &MinerState, state_data: &mut MinerStateData) {
    }

    fn update(&self, state: &MinerState, state_data: &mut MinerStateData) -> (request:
        StateTransition<MinerState>) {
        proof {
            state_data.miner.lemma_counters_in_range();
        }
        state_data.miner.increase_thirst();
        if !state_data.miner.fatigued() {
            state_data.journal.push(MinerNote::Rested);
            StateTransition::Switch(MinerState::EnterMineAndDigForNugget)
        } else {
            state_data.miner.decrease_fatigue();
            state_data.journal.push(MinerNote::Sleeping);
            StateTransition::Stay
        }
    }
}

/// Go to the saloon and have a whiskey, then back to the mine. A miner who
/// turns out not to be thirsty there stops the machine.
pub struct QuenchThirst;

impl Handler<MinerState, MinerStateData> for QuenchThirst {
    open spec fn permits(&self, call: Callback<MinerState>, data: MinerStateData) -> bool {
        state_permits(MinerState::QuenchThirst, call, data)
    }

    open spec fn effect(
        &self,
        call: Callback<MinerState>,
        before: MinerStateData,
        after: MinerStateData,
    ) -> bool {
        state_effect(MinerState::QuenchThirst, call, before, after)
    }

    open spec fn request(&self, state: MinerState, data: MinerStateData) -> StateTransition<
        MinerState,
    > {
        request_after_update(MinerState::QuenchThirst, data.miner@)
    }

    fn on_start(&self, state: &MinerState, state_data: &mut MinerStateData) {
        if state_data.location != Location::Saloon {
            state_data.location = Location::Saloon;
            state_data.journal.push(MinerNote::WalkingToSaloon);
        }
    }

    fn on_stop(&self, state: &MinerState, state_data: &mut MinerStateData) {
        state_data.journal.push(MinerNote::LeavingSaloon);
    }

    fn on_pause(&self, state: &MinerState, state_data: &mut MinerStateData) {
    }

    fn on_resume(&self, state: &MinerState, state_data: &mut MinerStateData) {
    }

    fn update(&self, state: &MinerState, state_data: &mut MinerStateData) -> (request:
        StateTransition<MinerState>) {
        proof {
            state_data.miner.lemma_counters_in_range();
        }
        state_data.miner.increase_thirst();
        if state_data.miner.thirsty() {
            state_data.miner.buy_and_drink_whiskey();
            state_data.journal.push(MinerNote::DrankWhiskey);
            StateTransition::Switch(MinerState::EnterMineAndDigForNugget)
        } else {
            state_data.journal.push(MinerNote::NotThirsty);
            StateTransition::Quit
        }
    }
}

/// The miner's handler: hands every callback to the handler of the state
/// that it is made for.
pub struct MinerHandler;

impl Handler<MinerState, MinerStateData> for MinerHandler {
    open spec fn permits(&self, call: Callback<MinerState>, data: MinerStateData) -> bool {
        state_permits(call.state(), call, data)
    }

    open spec fn effect(
        &self,
        call: Callback<MinerState>,
        before: MinerStateData,
        after: MinerStateData,
    ) -> bool {
        state_effect(call.state(), call, before, after)
    }

    open spec fn request(&self, state: MinerState, data: MinerStateData) -> StateTransition<
        MinerState,
    > {
        request_after_update(state, data.miner@)
    }

    fn on_start(&self, state: &MinerState, state_data: &mut MinerStateData) {
        match state {
            MinerState::EnterMineAndDigForNugget => {
                EnterMineAndDigForNugget.on_start(state, state_data)
            },
            MinerState::VisitBankAndDepositGold => {
                VisitBankAndDepositGold.on_start(state, state_data)
            },
            MinerState::GoHomeAndSleepTilRested => {
                GoHomeAndSleepTilRested.on_start(state, state_data)
            },
            MinerState::QuenchThirst => QuenchThirst.on_start(state, state_data),
        }
    }

    fn on_stop(&self, state: &MinerState, state_data: &mut MinerStateData) {
        match state {
            MinerState::EnterMineAndDigForNugget => {
                EnterMineAndDigForNugget.on_stop(state, state_data)
            },
            MinerState::VisitBankAndDepositGold => {
                VisitBankAndDepositGold.on_stop(state, state_data)
            },
            MinerState::GoHomeAndSleepTilRested => {
                GoHomeAndSleepTilRested.on_stop(state, state_data)
            },
            MinerState::QuenchThirst => QuenchThirst.on_stop(state, state_data),
        }
    }

    fn on_pause(&self, state: &MinerState, state_data: &mut MinerStateData) {
        match state {
            MinerState::EnterMineAndDigForNugget => {
                EnterMineAndDigForNugget.on_pause(state, state_data)
            },
            MinerState::VisitBankAndDepositGold => {
                VisitBankAndDepositGold.on_pause(state, state_data)
            },
            MinerState::GoHomeAndSleepTilRested => {
                GoHomeAndSleepTilRested.on_pause(state, state_data)
            },
            MinerState::QuenchThirst => QuenchThirst.on_pause(state, state_data),
        }
    }

    fn on_resume(&self, state: &MinerState, state_data: &mut MinerStateData) {
        match state {
            MinerState::EnterMineAndDigForNugget => {
                EnterMineAndDigForNugget.on_resume(state, state_data)
            },
            MinerState::VisitBankAndDepositGold => {
                VisitBankAndDepositGold.on_resume(state, state_data)
            },
            MinerState::GoHomeAndSleepTilRested => {
                GoHomeAndSleepTilRested.on_resume(state, state_data)
            },
            MinerState::QuenchThirst => QuenchThirst.on_resume(state, state_data),
        }
    }

    fn update(&self, state: &MinerState, state_data: &mut MinerStateData) -> (request:
        StateTransition<MinerState>) {
        match state {
            MinerState::EnterMineAndDigForNugget => {
                EnterMineAndDigForNugget.update(state, state_data)
            },
            MinerState::VisitBankAndDepositGold => {
                VisitBankAndDepositGold.update(state, state_data)
            },
            MinerState::GoHomeAndSleepTilRested => {
                GoHomeAndSleepTilRested.update(state, state_data)
            },
            MinerState::QuenchThirst => QuenchThirst.update(state, state_data),
        }
    }
}

} // verus!
