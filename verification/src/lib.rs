//! A transfer-hook staking program core.
//!
//! Token transfers of a governed token identity are gated through a callback
//! that drives a per-token-identity staking state machine: a caller-facing
//! begin-staking instruction opens a staking interval, and every transfer of
//! the token settles the open interval into an accumulated total. A staking
//! record and a side table of extra accounts live at addresses derived
//! deterministically from a namespace tag and the token identity, and every
//! caller-supplied address is validated against the recomputed derivation
//! before the data behind it is trusted.

pub mod codec;
pub mod dispatch;
pub mod entry;
pub mod metas;
pub mod pda;
pub mod record;
pub mod store;

pub use dispatch::fallback;
pub use entry::{
    initialize_extra_account_meta_list, stake, transfer_hook, InitializeExtraAccountMetaList,
    Stake, TransferHook,
};
pub use record::{StakingData, StakingErr};
pub use store::StakingStore;
