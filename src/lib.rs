//! A coin-flip wagering engine.
//!
//! The engine keeps a configured stake, an accumulated pot and a round
//! counter. A round collects the stake from the caller through a ledger,
//! draws a seed from a randomness source, pays the whole pot out when the
//! seed's last byte is below 128, and then tops the pot up by the stake.
use vstd::prelude::*;

pub mod laws;
pub mod ledger;
pub mod origin;
pub mod pallet;
pub mod randomness;

pub use ledger::{Balances, Ledger, LedgerError};
pub use origin::Origin;
pub use pallet::{Error, Event, Pallet};
pub use randomness::{Randomness, Seed, SeedSequence};

verus! {

/// Identifies an account of the ledger.
pub type AccountId = u64;

/// An amount of the ledger's currency.
pub type Balance = u64;

} // verus!
