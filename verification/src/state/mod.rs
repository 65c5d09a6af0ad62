//! Stake account states, their parts, and the accounts model.
pub mod account_info;
pub mod accounts;
pub mod delegation;
pub mod merge_kind;
pub mod stake_flag;
pub mod stake_history;
pub mod stake_state_v2;
pub mod state;
pub mod vote_state;

pub use account_info::AccountInfo;
pub use accounts::{Authorized, StakeAuthorize};
pub use delegation::{Delegation, Stake};
pub use stake_flag::StakeFlags;
pub use stake_state_v2::StakeStateV2;
pub use state::{Lockup, Meta};
pub use merge_kind::MergeKind;
pub use stake_history::{StakeActivationStatus, StakeHistory, StakeHistoryEntry};
