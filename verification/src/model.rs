//! The data handed to the decoder — flattened instructions, token balance
//! records, transaction metadata, transactions, blocks — and the swap events
//! it emits, together with their mathematical models.
//!
//! Every exec type here holds plain values only; `deep_view` maps it to a
//! ghost model over `Seq` and the contracts speak of those models.

use vstd::prelude::*;

verus! {

/// Which asset the user traded away relative to wrapped SOL.
#[derive(Clone, Copy, Debug, PartialEq, Eq, Structural)]
pub enum Side {
    /// The user spent wrapped SOL and received the base asset.
    Buy,
    /// The user spent the base asset and received wrapped SOL.
    Sell,
    /// Neither side of the trade is wrapped SOL, or the trade is unresolved.
    Unknown,
}

/// One flattened instruction: its program id as an index into the resolved
/// account-key list, its account indices, its opaque data bytes, and its
/// call-stack depth (1 for top-level; absent on blocks recorded before depth
/// was tracked).
#[derive(Clone, Debug)]
pub struct Instruction {
    pub program_id_index: u32,
    pub accounts: Vec<u8>,
    pub data: Vec<u8>,
    pub stack_height: Option<u32>,
}

/// Model of an [`Instruction`].
#[verifier::ext_equal]
pub ghost struct InstructionModel {
    pub program_id_index: u32,
    pub accounts: Seq<u8>,
    pub data: Seq<u8>,
    pub stack_height: Option<u32>,
}

impl DeepView for Instruction {
    type V = InstructionModel;

    open spec fn deep_view(&self) -> InstructionModel {
        InstructionModel {
            program_id_index: self.program_id_index,
            accounts: self.accounts@,
            data: self.data@,
            stack_height: self.stack_height,
        }
    }
}

/// A pre- or post-transaction token balance record: the account it describes
/// (as an index into the resolved key list), its mint and owner in base58
/// text, the raw amount as a decimal string, and the mint's decimals.
#[derive(Clone, Debug)]
pub struct TokenBalance {
    pub account_index: u32,
    pub mint: String,
    pub owner: String,
    pub amount: String,
    pub decimals: u32,
}

/// Model of a [`TokenBalance`].
#[verifier::ext_equal]
pub ghost struct TokenBalanceModel {
    pub account_index: u32,
    pub mint: Seq<char>,
    pub owner: Seq<char>,
    pub amount: Seq<char>,
    pub decimals: u32,
}

impl DeepView for TokenBalance {
    type V = TokenBalanceModel;

    open spec fn deep_view(&self) -> TokenBalanceModel {
        TokenBalanceModel {
            account_index: self.account_index,
            mint: self.mint@,
            owner: self.owner@,
            amount: self.amount@,
            decimals: self.decimals,
        }
    }
}

/// Execution metadata of a confirmed transaction. `err` is whether the
/// transaction failed; the two loaded-address lists extend the message's
/// account keys.
#[derive(Clone, Debug)]
pub struct TransactionMeta {
    pub err: bool,
    pub fee: u64,
    pub pre_balances: Vec<u64>,
    pub post_balances: Vec<u64>,
    pub pre_token_balances: Vec<TokenBalance>,
    pub post_token_balances: Vec<TokenBalance>,
    pub loaded_writable_addresses: Vec<Vec<u8>>,
    pub loaded_readonly_addresses: Vec<Vec<u8>>,
}

/// Model of a [`TransactionMeta`].
#[verifier::ext_equal]
pub ghost struct TransactionMetaModel {
    pub err: bool,
    pub fee: u64,
    pub pre_balances: Seq<u64>,
    pub post_balances: Seq<u64>,
    pub pre_token_balances: Seq<TokenBalanceModel>,
    pub post_token_balances: Seq<TokenBalanceModel>,
    pub loaded_writable_addresses: Seq<Seq<u8>>,
    pub loaded_readonly_addresses: Seq<Seq<u8>>,
}

impl DeepView for TransactionMeta {
    type V = TransactionMetaModel;

    open spec fn deep_view(&self) -> TransactionMetaModel {
        TransactionMetaModel {
            err: self.err,
            fee: self.fee,
            pre_balances: self.pre_balances@,
            post_balances: self.post_balances@,
            pre_token_balances: self.pre_token_balances.deep_view(),
            post_token_balances: self.post_token_balances.deep_view(),
            loaded_writable_addresses: self.loaded_writable_addresses.deep_view(),
            loaded_readonly_addresses: self.loaded_readonly_addresses.deep_view(),
        }
    }
}

/// One confirmed transaction: its signatures, the account keys of its message
/// (absent when the message itself is absent), its execution metadata, and
/// its instructions flattened so that each outer instruction is immediately
/// followed by its inner instructions in emission order.
#[derive(Clone, Debug)]
pub struct Transaction {
    pub signatures: Vec<Vec<u8>>,
    pub message_account_keys: Option<Vec<Vec<u8>>>,
    pub meta: Option<TransactionMeta>,
    pub instructions: Vec<Instruction>,
}

/// Model of a [`Transaction`].
#[verifier::ext_equal]
pub ghost struct TransactionModel {
    pub signatures: Seq<Seq<u8>>,
    pub message_account_keys: Option<Seq<Seq<u8>>>,
    pub meta: Option<TransactionMetaModel>,
    pub instructions: Seq<InstructionModel>,
}

impl DeepView for Transaction {
    type V = TransactionModel;

    open spec fn deep_view(&self) -> TransactionModel {
        TransactionModel {
            signatures: self.signatures.deep_view(),
            message_account_keys: self.message_account_keys.deep_view(),
            meta: self.meta.deep_view(),
            instructions: self.instructions.deep_view(),
        }
    }
}

/// A block: its slot, its optional block time in seconds, and its confirmed
/// transactions in block order.
#[derive(Clone, Debug)]
pub struct Block {
    pub slot: u64,
    pub block_time: Option<i64>,
    pub transactions: Vec<Transaction>,
}

/// Model of a [`Block`].
#[verifier::ext_equal]
pub ghost struct BlockModel {
    pub slot: u64,
    pub block_time: Option<i64>,
    pub transactions: Seq<TransactionModel>,
}

impl DeepView for Block {
    type V = BlockModel;

    open spec fn deep_view(&self) -> BlockModel {
        BlockModel {
            slot: self.slot,
            block_time: self.block_time,
            transactions: self.transactions.deep_view(),
        }
    }
}

/// One normalized swap event, emitted per matched swap instruction. Pool,
/// signature, user and the two mints are base58 text; a placeholder event
/// has empty mints, zero amounts and decimals, and side `Unknown`.
#[derive(Clone, Debug, PartialEq, Eq)]
pub struct SwapEvent {
    pub pool: String,
    pub signature: String,
    pub user: String,
    pub platform: String,
    pub timestamp_ms: u64,
    pub slot: u64,
    pub tx_index: u32,
    pub base_mint: String,
    pub quote_mint: String,
    pub base_amount: u64,
    pub quote_amount: u64,
    pub base_decimals: u32,
    pub quote_decimals: u32,
    pub side: Side,
}

/// Model of a [`SwapEvent`].
#[verifier::ext_equal]
pub ghost struct SwapEventModel {
    pub pool: Seq<char>,
    pub signature: Seq<char>,
    pub user: Seq<char>,
    pub platform: Seq<char>,
    pub timestamp_ms: u64,
    pub slot: u64,
    pub tx_index: u32,
    pub base_mint: Seq<char>,
    pub quote_mint: Seq<char>,
    pub base_amount: u64,
    pub quote_amount: u64,
    pub base_decimals: u32,
    pub quote_decimals: u32,
    pub side: Side,
}

impl DeepView for SwapEvent {
    type V = SwapEventModel;

    open spec fn deep_view(&self) -> SwapEventModel {
        SwapEventModel {
            pool: self.pool@,
            signature: self.signature@,
            user: self.user@,
            platform: self.platform@,
            timestamp_ms: self.timestamp_ms,
            slot: self.slot,
            tx_index: self.tx_index,
            base_mint: self.base_mint@,
            quote_mint: self.quote_mint@,
            base_amount: self.base_amount,
            quote_amount: self.quote_amount,
            base_decimals: self.base_decimals,
            quote_decimals: self.quote_decimals,
            side: self.side,
        }
    }
}

/// A resolved swap: the traded mint pair in base58 text, the raw amounts
/// and decimals of both sides, and the side relative to wrapped SOL.
#[derive(Clone, Debug)]
pub struct ResolvedAmounts {
    pub base_mint: String,
    pub quote_mint: String,
    pub base_amount: u64,
    pub quote_amount: u64,
    pub base_decimals: u32,
    pub quote_decimals: u32,
    pub side: Side,
}

/// Model of a [`ResolvedAmounts`].
#[verifier::ext_equal]
pub ghost struct ResolvedAmountsModel {
    pub base_mint: Seq<char>,
    pub quote_mint: Seq<char>,
    pub base_amount: u64,
    pub quote_amount: u64,
    pub base_decimals: u32,
    pub quote_decimals: u32,
    pub side: Side,
}

impl DeepView for ResolvedAmounts {
    type V = ResolvedAmountsModel;

    open spec fn deep_view(&self) -> ResolvedAmountsModel {
        ResolvedAmountsModel {
            base_mint: self.base_mint@,
            quote_mint: self.quote_mint@,
            base_amount: self.base_amount,
            quote_amount: self.quote_amount,
            base_decimals: self.base_decimals,
            quote_decimals: self.quote_decimals,
            side: self.side,
        }
    }
}

/// The batch of swap events decoded from one block, in emission order.
#[derive(Clone, Debug, PartialEq, Eq)]
pub struct SwapEvents {
    pub swaps: Vec<SwapEvent>,
}

} // verus!
