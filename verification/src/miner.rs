//! A gold miner driven by the state machine: digs until the pockets are
//! full, banks the gold, drinks when thirsty and sleeps once comfortable.
pub mod agent;
pub mod handlers;
pub mod run;
pub mod states;

pub use agent::{
    Location, Miner, MinerView, COMFORT_LEVEL, MAX_NUGGETS, THIRST_LEVEL, TIREDNESS_THRESHOLD,
};
pub use states::{MinerNote, MinerState, MinerStateData};
pub use handlers::{
    EnterMineAndDigForNugget, GoHomeAndSleepTilRested, MinerHandler, QuenchThirst,
    VisitBankAndDepositGold,
};
pub use run::{init_miner, update_miner};
