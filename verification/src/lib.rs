//! Accounting and lifecycle rules of a multi-party bill-splitting escrow.
//!
//! A creator opens a split with a fixed total and one share per participant.
//! Participants pay their shares in instalments. Once every share is paid the
//! creator may release the pooled funds, and the creator may cancel a split
//! that is not released. Every rule is stated as a contract over the
//! mathematical views of the data and proved.

pub mod address;
pub mod contract;
pub mod errors;
pub mod events;
pub mod laws;
pub mod ledger;
pub mod registry;
pub mod split;
pub mod storage;
pub mod types;

pub use crate::address::Address;
pub use crate::contract::SplitEscrowContract;
pub use crate::errors::{EscrowError, InvalidStateError, NotFoundError, ValidationError};
pub use crate::events::Event;
pub use crate::storage::{DataKey, Store};
pub use crate::types::{ContractConfig, Participant, Split, SplitStatus};
