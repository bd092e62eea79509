//! The data model of the sale: the per-phase record, the shared sale
//! ledger, and the per-participant account.

pub mod phase_info;
pub mod presale_info;
pub mod user_info;

pub use phase_info::Phase;
pub use phase_info::PhaseStatus;
pub use presale_info::PresaleInfo;
pub use user_info::UserInfo;
