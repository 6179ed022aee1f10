//! The records that the program keeps in its accounts, with their byte layout.

pub mod dao_v1;
pub mod proposal_v1;
pub mod vault_v1;

pub use dao_v1::DaoV1;
pub use proposal_v1::{ProposalStatus, ProposalV1};
pub use vault_v1::VaultV1;
