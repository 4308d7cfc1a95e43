//! A two-party asset-swap escrow, stated over a model of the ledger's accounts.
//!
//! A maker locks an amount of one asset in a custody account owned by a
//! program-derived offer address and names what it wants of another; a taker
//! delivers that asset and receives the whole custody balance, after which the
//! custody account and the offer record are closed.

pub mod accounts;
pub mod derivation;
pub mod error;
pub mod instructions;
pub mod key;
pub mod laws;
pub mod ledger;
pub mod state;

pub use accounts::{Account, AccountData};
pub use derivation::{associated_address, escrow_address, escrow_seeds, is_escrow_signer, le_bytes_of, signer_seeds};
pub use error::EscrowError;
pub use instructions::{deposit, init_escrow, take_offer, MakeOffer, TakeOffer, TokenStep};
pub use key::Key;
pub use ledger::{Config, Ledger};
pub use state::Escrow;
