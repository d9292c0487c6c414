//! A verified model of an NFT sale contract for a Secret Network style chain.
//!
//! The contract keeps a sale configuration, a whitelist, a pool of token
//! metadata and the tokens that each buyer has minted.  Buyers pay with a
//! SNIP-20 token; every accepted payment mints one not-yet-minted slot of the
//! pool on a SNIP-721 contract and splits the payment among reward wallets.
//!
//! The storage of the contract is modelled by [`state::Store`]; the message
//! handlers in [`contract`] are verified against relational contracts over the
//! store's view, and the laws that tie them together are proved in [`laws`].

pub mod decimal;
pub mod dup;
pub mod env;
pub mod error;
pub mod msg;
pub mod package;
pub mod state;
pub mod contract;
pub mod laws;
