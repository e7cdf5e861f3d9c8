//! The miner's own bookkeeping: gold, savings, thirst and fatigue.
use vstd::prelude::*;

verus! {

/// The amount of gold a miner must have saved before feeling comfortable.
pub const COMFORT_LEVEL: i32 = 5;

/// The amount of nuggets a miner can carry.
pub const MAX_NUGGETS: i32 = 3;

/// Above this value a miner is thirsty.
pub const THIRST_LEVEL: i32 = 5;

/// Above this value a miner is sleepy.
pub const TIREDNESS_THRESHOLD: i32 = 5;

/// The places an agent can be.
#[derive(Copy, Clone, Debug, PartialEq, Eq, Structural)]
pub enum Location {
    Goldmine,
    Bank,
    Shack,
    Saloon,
}

/// A miner's counters.
pub struct Miner {
    gold: i32,
    bank: i32,
    thirst: i32,
    fatigue: i32,
}

/// A miner's counters as mathematical integers.
pub struct MinerView {
    /// Nuggets in the pockets.
    pub gold: int,
    /// Gold saved at the bank; whiskey is paid from it, so it can be
    /// negative.
    pub bank: int,
    /// Updates since the last drink.
    pub thirst: int,
    /// Tiredness: grows while digging, shrinks while sleeping.
    pub fatigue: int,
}

impl View for Miner {
    type V = MinerView;

    closed spec fn view(&self) -> MinerView {
        MinerView {
            gold: self.gold as int,
            bank: self.bank as int,
            thirst: self.thirst as int,
            fatigue: self.fatigue as int,
        }
    }
}

impl Miner {
    /// A miner with empty pockets and no savings, neither thirsty nor tired.
    pub fn new() -> (miner: Self)
        ensures
            miner@ == (MinerView { gold: 0, bank: 0, thirst: 0, fatigue: 0 }),
    {
        Miner { gold: 0, bank: 0, thirst: 0, fatigue: 0 }
    }

    /// Every counter fits the machine integer that holds it.
    pub proof fn lemma_counters_in_range(&self)
        ensures
            i32::MIN <= self@.gold <= i32::MAX,
            i32::MIN <= self@.bank <= i32::MAX,
            i32::MIN <= self@.thirst <= i32::MAX,
            i32::MIN <= self@.fatigue <= i32::MAX,
    {
    }

    /// Adds `gold` nuggets to the pockets; pockets never hold less than
    /// nothing.
    pub fn add_to_gold_carried(&mut self, gold: i32)
        requires
            i32::MIN <= old(self)@.gold + gold <= i32::MAX,
        ensures
            final(self)@ == (MinerView {
                gold: if old(self)@.gold + gold < 0 {
                    0
                } else {
                    old(self)@.gold + gold
                },
                ..old(self)@
            }),
    {
        self.gold += gold;
        if self.gold < 0 {
            self.gold = 0;
        }
    }

    /// One more unit of fatigue.
    pub fn increase_fatigue(&mut self)
        requires
            old(self)@.fatigue < i32::MAX,
        ensures
            final(self)@ == (MinerView { fatigue: old(self)@.fatigue + 1, ..old(self)@ }),
    {
        self.fatigue += 1;
    }

    /// One unit of fatigue less.
    pub fn decrease_fatigue(&mut self)
        requires
            old(self)@.fatigue > i32::MIN,
        ensures
            final(self)@ == (MinerView { fatigue: old(self)@.fatigue - 1, ..old(self)@ }),
    {
        self.fatigue -= 1;
    }

    /// Whether the miner carries as many nuggets as the pockets take.
    pub fn pockets_full(&self) -> (full: bool)
        ensures
            full <==> self@.gold >= MAX_NUGGETS,
    {
        self.gold >= MAX_NUGGETS
    }

    /// One more update without a drink.
    pub fn increase_thirst(&mut self)
        requires
            old(self)@.thirst < i32::MAX,
        ensures
            final(self)@ == (MinerView { thirst: old(self)@.thirst + 1, ..old(self)@ }),
    {
        self.thirst += 1;
    }

    /// Whether the thirst is above the level that sends a miner to the
    /// saloon.
    pub fn thirsty(&self) -> (thirsty: bool)
        ensures
            thirsty <==> self@.thirst > THIRST_LEVEL,
    {
        self.thirst > THIRST_LEVEL
    }

    /// Pays two pieces of gold from the savings for a whiskey, which
    /// quenches all thirst.
    pub fn buy_and_drink_whiskey(&mut self)
        requires
            old(self)@.bank - 2 >= i32::MIN,
        ensures
            final(self)@ == (MinerView { bank: old(self)@.bank - 2, thirst: 0, ..old(self)@ }),
    {
        self.bank -= 2;
        self.thirst = 0;
    }

    /// Moves all the gold carried into the savings.
    pub fn move_gold_to_bank(&mut self)
        requires
            i32::MIN <= old(self)@.bank + old(self)@.gold <= i32::MAX,
        ensures
            final(self)@ == (MinerView {
                bank: old(self)@.bank + old(self)@.gold,
                gold: 0,
                ..old(self)@
            }),
    {
        self.bank += self.gold;
        self.gold = 0;
    }

    /// The nuggets in the pockets.
    pub fn gold(&self) -> (carried: i32)
        ensures
            carried == self@.gold,
    {
        self.gold
    }

    /// The updates since the last drink.
    pub fn thirst(&self) -> (thirst: i32)
        ensures
            thirst == self@.thirst,
    {
        self.thirst
    }

    /// The tiredness.
    pub fn fatigue(&self) -> (fatigue: i32)
        ensures
            fatigue == self@.fatigue,
    {
        self.fatigue
    }

    /// The gold saved at the bank.
    pub fn wealth(&self) -> (saved: i32)
        ensures
            saved == self@.bank,
    {
        self.bank
    }

    /// Whether the fatigue is above the level at which a miner sleeps on.
    pub fn fatigued(&self) -> (tired: bool)
        ensures
            tired <==> self@.fatigue > TIREDNESS_THRESHOLD,
    {
        self.fatigue > TIREDNESS_THRESHOLD
    }
}

} // verus!
