//! A ledger of time-bounded proposals with direct and delegated voting.
//!
//! The ledger is an explicit value, [`Pallet`], that owns the proposal
//! counter, the proposal records and the voter records. Every operation
//! takes the authenticated caller and the current block height as plain
//! arguments, either commits as a whole or leaves the ledger untouched, and
//! is specified by a transition function over the ledger's mathematical
//! view.

pub mod types;
pub mod model;
pub mod pallet;
pub mod laws;
pub mod weights;

pub use model::{Call, DelegateWalk, PalletView};
pub use pallet::Pallet;
pub use weights::{SubstrateWeight, Weight};
pub use types::{
    AccountId, BlockNumber, Config, DefaultVoter, Error, Event, Proposal, ProposalView, Voter,
};
