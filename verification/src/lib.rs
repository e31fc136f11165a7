//! Guest side of the NFTMart chain extension.
//!
//! A contract reaches the NFT logic of the chain through a small set of numbered
//! host calls. This crate holds everything the contract side decides about such
//! a call: which number an operation has, how its arguments are laid out in
//! bytes, how the status code and the output bytes of the answer are read, and
//! what the demonstration contract does with the answers.

pub mod types;
pub mod status;
pub mod scale;
pub mod wire;
pub mod extension;
pub mod contract;

pub use types::{
    AccountId, Balance, BlockNumber, Chars, ClassId, CustomEnvironment, Metadata, Quantity,
    TokenData, TokenId, TokenInfo,
};
pub use status::{decode_status, Abort, NFTMartErr, Outcome};
pub use extension::{Extension, NFTMart, Operation, Response};
pub use contract::{ContractDemo, CreateClassFromContract, RandomUpdated};
