//! Sealed-bid auction whose bids stay encrypted end to end.
//!
//! Every comparison and selection on a bid goes through a confidential
//! compute engine that works on opaque ciphertext handles. The library
//! decides which engine operations an instruction needs (always the same
//! fixed circuit, whatever the hidden values are), validates the plain
//! parts of each instruction, and commits the handles that come back.
//! The engine's capability contract is written as a spec (`faithful`), and
//! the auction's laws are proved against every engine that honours it.

mod encrypted;
mod error;
mod events;
mod instructions;
pub mod laws;
pub mod order_stats;
mod state;

pub use encrypted::{bool_value, faithful, op_value, operand_value, Ebool, Euint128, Op, Operand, ZERO_HANDLE};
pub use error::AuctionError;
pub use events::{AuctionClosed, AuctionCreated};
pub use instructions::{CheckWinner, CloseAuction, CreateAuction, DecryptGrant, PlaceBid};
pub use state::{Address, AuctionState, AuctionStatus, AuctionType, Bid};
