//! The operations of the sale. Each one validates, computes every new value,
//! and only then mutates — a failed operation changes nothing.

pub mod buy_token;
pub mod claim_token;
pub mod create_presale;
pub mod deposit_token;
pub mod emergency_stop;
pub mod resume_presale;
pub mod withdraw_sol;

pub use buy_token::buy_token;
pub use claim_token::claim_token;
pub use create_presale::create_presale;
pub use deposit_token::deposit_token;
pub use emergency_stop::emergency_stop;
pub use resume_presale::resume_presale;
pub use withdraw_sol::withdraw_sol;
