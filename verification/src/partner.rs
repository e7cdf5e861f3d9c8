//! The miner's partner, driven by the state machine: keeps house, with the
//! odd trip to the bathroom.
pub mod agent;
pub mod handlers;
pub mod run;

pub use agent::{Partner, PartnerChore, PartnerNote, PartnerState};
pub use handlers::{DoHouseWork, PartnerHandler, VisitBathroom};
pub use run::update_partner;
