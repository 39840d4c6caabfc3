//! A fee vault for a confidential token.
//!
//! The vault collects fees, commits parts of them to distribution and closes its epoch, all
//! without seeing an amount: its record holds handles, names of ciphertexts that an
//! arithmetic service keeps, and every sum, difference, comparison and selection is asked of
//! that service.
//!
//! - `vault` has the record, `store` the records of many mints.
//! - `session` holds the calls into the arithmetic service and the account of what was
//!   answered; `arithmetic` has the five operations that the vault asks for.
//! - `transfer` has the requests that go to the token service.
//! - `machine` has the four transitions: `initialize`, `collect_fee`, `distribute` and
//!   `settle_epoch`.
//! - `transition` describes a committed transition, `plaintext` what handles stand for, and
//!   `laws` what follows for the amounts.

pub mod arithmetic;
pub mod error;
pub mod key;
pub mod laws;
pub mod machine;
pub mod plaintext;
pub mod session;
pub mod store;
pub mod transfer;
pub mod transition;
pub mod vault;

pub use crate::error::VaultError;
pub use crate::key::Key;
pub use crate::machine::collect_fee;
pub use crate::machine::distribute;
pub use crate::machine::initialize;
pub use crate::machine::settle_epoch;
pub use crate::machine::CollectFee;
pub use crate::machine::Distribute;
pub use crate::machine::Initialize;
pub use crate::machine::SettleEpoch;
pub use crate::session::Arithmetic;
pub use crate::store::VaultStore;
pub use crate::transfer::TransferRequest;
pub use crate::vault::FeeVault;
pub use crate::vault::ZERO_HANDLE;
