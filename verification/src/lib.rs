//! Escrowed crowdfunding campaigns: the campaign record, the rules by which
//! contributions are capped and settlement is paid out, and the laws that
//! hold of every history of a campaign.

pub mod campaign;
pub mod error;
pub mod history;
pub mod identity;
pub mod ledger;
pub mod lifecycle;

pub use campaign::Campaign;
pub use error::ErrorCode;
pub use history::Operation;
pub use identity::Identity;
pub use ledger::Transfer;
pub use lifecycle::{
    deposit, finalize, initialize, sweep, Contribution, Deposit, Finalize, Initialize,
};
