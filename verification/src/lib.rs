//! Verified core of a small on-chain treasury and governance program:
//! account validation, program-derived-address checks, the byte layout of
//! the stored records and of the instructions, and the state transitions of
//! a spending proposal (create, vote, execute).

pub mod account;
pub mod address;
pub mod codec;
pub mod cpi;
pub mod error;
pub mod pubkey;
pub mod seeds;
pub mod states;
pub mod instructions;
pub mod lifecycle;
