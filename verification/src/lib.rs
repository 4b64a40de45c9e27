//! Time-boxed fundraising campaigns with custody of what is donated, a fee that grows with a
//! campaign's progress, and a pause switch in the administrator's hand.
//!
//! The crate holds the rules and nothing else. The current time is an argument of each
//! operation that needs it, and value is moved by the ledger that hosts the records: a
//! donation tells the host which transfers to make, a withdrawal is handed the balances it
//! moves.

pub mod admin;
pub mod campaign;
pub mod donation;
pub mod error;
pub mod fee;
pub mod identity;
pub mod theorems;
pub mod withdrawal;

pub use admin::{authorize, initialize, toggle_pause, Admin, Initialize, TogglePause};
pub use campaign::{create_campaign, Campaign, CreateCampaign};
pub use donation::{donate, Donate, Donation};
pub use error::ErrorCode;
pub use fee::compute_fee;
pub use identity::Identity;
pub use withdrawal::{withdraw, Withdraw};
