//! Decoder for swap events of three on-chain liquidity programs.
//!
//! Given a block of confirmed transactions, the decoder finds every
//! instruction that invokes one of the three target programs with a known
//! swap method, resolves the traded mint pair and raw amounts for each such
//! invocation, and emits one normalized swap event per invocation.

pub mod balances;
pub mod constants;
pub mod decode;
pub mod encode;
pub mod laws;
pub mod model;
pub mod resolver;
pub mod transfer;
pub mod util;

pub use constants::Platform;
pub use model::{Block, Instruction, Side, SwapEvent, SwapEvents, TokenBalance, Transaction,
    TransactionMeta};
