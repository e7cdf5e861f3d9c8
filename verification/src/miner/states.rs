//! The miner's four states and what each of them does on every callback.
use vstd::prelude::*;
use crate::fsm::handler::{Callback, StateTransition};
use crate::miner::agent::{
    Location, Miner, MinerView, COMFORT_LEVEL, MAX_NUGGETS, THIRST_LEVEL, TIREDNESS_THRESHOLD,
};

verus! {

/// What the miner is busy with.
#[derive(Copy, Clone, Debug, PartialEq, Eq, Structural)]
pub enum MinerState {
    EnterMineAndDigForNugget,
    VisitBankAndDepositGold,
    QuenchThirst,
    GoHomeAndSleepTilRested,
}

/// Something the miner has to say about what just happened. The states
/// append these to the journal; putting them into words is left to whoever
/// reads it.
#[derive(Copy, Clone, Debug, PartialEq, Eq, Structural)]
pub enum MinerNote {
    /// Set out for the goldmine.
    WalkingToGoldmine,
    /// Dug up one more nugget.
    PickedUpNugget,
    /// Left the goldmine.
    LeavingGoldmine,
    /// Set out for the bank.
    GoingToBank,
    /// Handed the gold carried over the counter.
    DepositedGold {
        /// The savings after the deposit.
        savings: i32,
    },
    /// The savings have reached the comfort level.
    RichEnough,
    /// Left the bank.
    LeavingBank,
    /// Set out for the shack.
    WalkingHome,
    /// Woke up rested.
    Rested,
    /// Still asleep.
    Sleeping,
    /// Left the shack.
    LeavingHouse,
    /// Set out for the saloon.
    WalkingToSaloon,
    /// Had a whiskey.
    DrankWhiskey,
    /// Stood in the saloon without being thirsty: the miner gives up.
    NotThirsty,
    /// Left the saloon.
    LeavingSaloon,
}

/// Everything the miner's states read and write.
pub struct MinerStateData {
    /// Where the miner is.
    pub location: Location,
    /// The miner's counters.
    pub miner: Miner,
    /// What the miner has said so far, oldest first.
    pub journal: Vec<MinerNote>,
}

impl MinerStateData {
    /// A fresh miner at the shack who has said nothing yet.
    pub fn new() -> (data: Self)
        ensures
            data.location == Location::Shack,
            data.miner@ == (MinerView { gold: 0, bank: 0, thirst: 0, fatigue: 0 }),
            data.journal@ == Seq::<MinerNote>::empty(),
    {
        MinerStateData { location: Location::Shack, miner: Miner::new(), journal: Vec::new() }
    }

    /// Whether the miner's counters leave room for one more update of
    /// `state`.
    pub fn can_update(&self, state: &MinerState) -> (ready: bool)
        ensures
            ready == can_update(*state, self.miner@),
    {
        let miner = &self.miner;
        match state {
            MinerState::EnterMineAndDigForNugget => miner.thirst() < i32::MAX && miner.gold()
                < i32::MAX && miner.fatigue() < i32::MAX,
            MinerState::VisitBankAndDepositGold => miner.thirst() < i32::MAX
                && miner.wealth().checked_add(miner.gold()).is_some(),
            MinerState::GoHomeAndSleepTilRested => miner.thirst() < i32::MAX,
            MinerState::QuenchThirst => miner.thirst() < i32::MAX && (miner.thirst()
                < THIRST_LEVEL || miner.wealth() >= i32::MIN + 2),
        }
    }
}

/// Where the miner has to be for `state`.
pub open spec fn workplace(state: MinerState) -> Location {
    match state {
        MinerState::EnterMineAndDigForNugget => Location::Goldmine,
        MinerState::VisitBankAndDepositGold => Location::Bank,
        MinerState::QuenchThirst => Location::Saloon,
        MinerState::GoHomeAndSleepTilRested => Location::Shack,
    }
}

/// What the miner says when setting out for the place of `state`.
pub open spec fn arrival_note(state: MinerState) -> MinerNote {
    match state {
        MinerState::EnterMineAndDigForNugget => MinerNote::WalkingToGoldmine,
        MinerState::VisitBankAndDepositGold => MinerNote::GoingToBank,
        MinerState::QuenchThirst => MinerNote::WalkingToSaloon,
        MinerState::GoHomeAndSleepTilRested => MinerNote::WalkingHome,
    }
}

/// What the miner says when `state` ends.
pub open spec fn departure_note(state: MinerState) -> MinerNote {
    match state {
        MinerState::EnterMineAndDigForNugget => MinerNote::LeavingGoldmine,
        MinerState::VisitBankAndDepositGold => MinerNote::LeavingBank,
        MinerState::QuenchThirst => MinerNote::LeavingSaloon,
        MinerState::GoHomeAndSleepTilRested => MinerNote::LeavingHouse,
    }
}

/// Whether `state`, when resumed, walks back to its place as it does when
/// started. The other states resume without doing anything.
pub open spec fn resumes_by_arriving(state: MinerState) -> bool {
    state is EnterMineAndDigForNugget || state is VisitBankAndDepositGold
}

/// Nothing differs between `before` and `after`.
pub open spec fn unchanged(before: MinerStateData, after: MinerStateData) -> bool {
    &&& after.location == before.location
    &&& after.miner@ == before.miner@
    &&& after.journal@ =~= before.journal@
}

/// The miner is at the place of `state`, and has said so if that took a
/// walk.
pub open spec fn arrives(state: MinerState, before: MinerStateData, after: MinerStateData) -> bool {
    &&& after.location == workplace(state)
    &&& after.miner@ == before.miner@
    &&& after.journal@ =~= if before.location == workplace(state) {
        before.journal@
    } else {
        before.journal@.push(arrival_note(state))
    }
}

/// The miner has said goodbye to the place of `state`.
pub open spec fn departs(state: MinerState, before: MinerStateData, after: MinerStateData) -> bool {
    &&& after.location == before.location
    &&& after.miner@ == before.miner@
    &&& after.journal@ =~= before.journal@.push(departure_note(state))
}

/// Whether the counters `miner` leave room for one update of `state`
/// without any of them leaving the range of its machine integer.
pub open spec fn can_update(state: MinerState, miner: MinerView) -> bool {
    match state {
        MinerState::EnterMineAndDigForNugget => miner.thirst < i32::MAX && miner.gold < i32::MAX
            && miner.fatigue < i32::MAX,
        MinerState::VisitBankAndDepositGold => miner.thirst < i32::MAX && i32::MIN <= miner.bank
            + miner.gold <= i32::MAX,
        MinerState::GoHomeAndSleepTilRested => miner.thirst < i32::MAX,
        MinerState::QuenchThirst => miner.thirst < i32::MAX && (miner.thirst + 1 > THIRST_LEVEL
            ==> miner.bank - 2 >= i32::MIN),
    }
}

/// The counters after one update of `state`.
pub open spec fn miner_after_update(state: MinerState, miner: MinerView) -> MinerView {
    match state {
        MinerState::EnterMineAndDigForNugget => MinerView {
            thirst: miner.thirst + 1,
            gold: if miner.gold + 1 < 0 {
                0
            } else {
                miner.gold + 1
            },
            fatigue: miner.fatigue + 1,
            ..miner
        },
        MinerState::VisitBankAndDepositGold => MinerView {
            thirst: miner.thirst + 1,
            bank: miner.bank + miner.gold,
            gold: 0,
            ..miner
        },
        MinerState::GoHomeAndSleepTilRested => MinerView {
            thirst: miner.thirst + 1,
            fatigue: if miner.fatigue > TIREDNESS_THRESHOLD {
                miner.fatigue - 1
            } else {
                miner.fatigue
            },
            ..miner
        },
        MinerState::QuenchThirst => if miner.thirst + 1 > THIRST_LEVEL {
            MinerView { thirst: 0, bank: miner.bank - 2, ..miner }
        } else {
            MinerView { thirst: miner.thirst + 1, ..miner }
        },
    }
}

/// What the miner says during one update of `state`, in order.
pub open spec fn notes_of_update(state: MinerState, miner: MinerView) -> Seq<MinerNote> {
    let after = miner_after_update(state, miner);
    match state {
        MinerState::EnterMineAndDigForNugget => seq![MinerNote::PickedUpNugget],
        MinerState::VisitBankAndDepositGold => if after.bank >= COMFORT_LEVEL {
            seq![MinerNote::DepositedGold { savings: after.bank as i32 }, MinerNote::RichEnough]
        } else {
            seq![MinerNote::DepositedGold { savings: after.bank as i32 }]
        },
        MinerState::GoHomeAndSleepTilRested => if miner.fatigue > TIREDNESS_THRESHOLD {
            seq![MinerNote::Sleeping]
        } else {
            seq![MinerNote::Rested]
        },
        MinerState::QuenchThirst => if miner.thirst + 1 > THIRST_LEVEL {
            seq![MinerNote::DrankWhiskey]
        } else {
            seq![MinerNote::NotThirsty]
        },
    }
}

/// The transition that one update of `state` asks for.
pub open spec fn request_after_update(state: MinerState, miner: MinerView) -> StateTransition<
    MinerState,
> {
    let after = miner_after_update(state, miner);
    match state {
        MinerState::EnterMineAndDigForNugget => if after.gold >= MAX_NUGGETS {
            StateTransition::Switch(MinerState::VisitBankAndDepositGold)
        } else if after.thirst > THIRST_LEVEL {
            StateTransition::Switch(MinerState::QuenchThirst)
        } else {
            StateTransition::Stay
        },
        MinerState::VisitBankAndDepositGold => if after.bank >= COMFORT_LEVEL {
            StateTransition::Switch(MinerState::GoHomeAndSleepTilRested)
        } else {
            StateTransition::Switch(MinerState::EnterMineAndDigForNugget)
        },
        MinerState::GoHomeAndSleepTilRested => if miner.fatigue > TIREDNESS_THRESHOLD {
            StateTransition::Stay
        } else {
            StateTransition::Switch(MinerState::EnterMineAndDigForNugget)
        },
        MinerState::QuenchThirst => if miner.thirst + 1 > THIRST_LEVEL {
            StateTransition::Switch(MinerState::EnterMineAndDigForNugget)
        } else {
            StateTransition::Quit
        },
    }
}

/// One update of `state` has happened between `before` and `after`.
pub open spec fn updates(state: MinerState, before: MinerStateData, after: MinerStateData) -> bool {
    &&& after.location == before.location
    &&& after.miner@ == miner_after_update(state, before.miner@)
    &&& after.journal@ =~= before.journal@ + notes_of_update(state, before.miner@)
}

/// Whether the handler of `state` permits `call` on `data`: everything but
/// an update that would overflow a counter.
pub open spec fn state_permits(
    state: MinerState,
    call: Callback<MinerState>,
    data: MinerStateData,
) -> bool {
    call is Update ==> can_update(state, data.miner@)
}

/// What the handler of `state` does on `call`.
pub open spec fn state_effect(
    state: MinerState,
    call: Callback<MinerState>,
    before: MinerStateData,
    after: MinerStateData,
) -> bool {
    match call {
        Callback::Start(_) => arrives(state, before, after),
        Callback::Stop(_) => departs(state, before, after),
        Callback::Pause(_) => unchanged(before, after),
        Callback::Resume(_) => if resumes_by_arriving(state) {
            arrives(state, before, after)
        } else {
            unchanged(before, after)
        },
        Callback::Update(_) => updates(state, before, after),
    }
}

} // verus!
