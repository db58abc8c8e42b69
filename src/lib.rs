//! Orchestration of a one-of-one token mint: the checked account bundle, the
//! six cross-program calls that bring the token into existence, and the run
//! that issues them in order and stops at the first failure.
pub mod accounts;
pub mod calls;
pub mod effects;
pub mod run;

pub use accounts::{AccountRef, AccountsError, MintNft, Role};
pub use calls::Call;
pub use run::{mint_nft, MintNftRun, Progress, Status};
