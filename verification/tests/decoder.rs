use meteora::constants::{
    DAMM_PROGRAM_ID, DBC_PROGRAM_ID, DLMM_PROGRAM_ID, DLMM_SWAP, DLMM_SWAP2, TOKEN_2022_PROGRAM_ID,
    TOKEN_PROGRAM_ID,
};
use meteora::decode::meteora;
use meteora::model::{Block, Instruction, Side, TokenBalance, Transaction, TransactionMeta};

const WSOL: &str = "So11111111111111111111111111111111111111112";

fn key(tag: u8) -> Vec<u8> {
    let mut k = vec![0u8; 32];
    k[0] = tag;
    k[31] = tag;
    k
}

fn empty_meta() -> TransactionMeta {
    TransactionMeta {
        err: false,
        fee: 0,
        pre_balances: Vec::new(),
        post_balances: Vec::new(),
        pre_token_balances: Vec::new(),
        post_token_balances: Vec::new(),
        loaded_writable_addresses: Vec::new(),
        loaded_readonly_addresses: Vec::new(),
    }
}

fn balance(account_index: u32, mint: &str, amount: &str, decimals: u32) -> TokenBalance {
    TokenBalance {
        account_index,
        mint: mint.to_string(),
        owner: String::new(),
        amount: amount.to_string(),
        decimals,
    }
}

fn swap_data(discriminator: [u8; 8]) -> Vec<u8> {
    let mut d = discriminator.to_vec();
    d.extend_from_slice(&[0u8; 16]);
    d
}

fn transfer_data(amount: u64) -> Vec<u8> {
    let mut d = vec![3u8];
    d.extend_from_slice(&amount.to_le_bytes());
    d
}

fn transfer_checked_data(amount: u64, decimals: u8) -> Vec<u8> {
    let mut d = vec![12u8];
    d.extend_from_slice(&amount.to_le_bytes());
    d.push(decimals);
    d
}

fn block_of(transactions: Vec<Transaction>) -> Block {
    Block { slot: 7, block_time: Some(1_600_000_000), transactions }
}

/// Account keys for the single-transaction tests:
/// 0 signer, 1 target program, 2 token program, 3 pool, 4 user input account,
/// 5 user output account, 6 and 7 counterparties, 8 and 9 mint accounts.
fn standard_keys(program_id: &[u8; 32]) -> Vec<Vec<u8>> {
    vec![
        key(1),
        program_id.to_vec(),
        TOKEN_PROGRAM_ID.to_vec(),
        key(2),
        key(3),
        key(4),
        key(5),
        key(6),
        key(7),
        key(8),
    ]
}

/// S1: one DLMM swap, two inner legacy-token transfers; balances identify the
/// input account as wrapped SOL. The user spent WSOL, so the event is a buy
/// with the received mint as base.
#[test]
fn single_dlmm_buy() {
    let swap = Instruction {
        program_id_index: 1,
        // pool at slot 0, user input at slot 4, user output at slot 5
        accounts: vec![3, 0, 0, 0, 4, 5],
        data: swap_data(DLMM_SWAP),
        stack_height: Some(1),
    };
    let spend = Instruction {
        program_id_index: 2,
        accounts: vec![4, 6],
        data: transfer_data(1_000_000),
        stack_height: Some(2),
    };
    let receive = Instruction {
        program_id_index: 2,
        accounts: vec![7, 5],
        data: transfer_data(42),
        stack_height: Some(2),
    };
    let mut meta = empty_meta();
    meta.post_token_balances.push(balance(4, WSOL, "0", 9));
    meta.post_token_balances.push(balance(5, "MINTT", "42", 6));
    let tx = Transaction {
        signatures: vec![vec![9u8; 64]],
        message_account_keys: Some(standard_keys(&DLMM_PROGRAM_ID)),
        meta: Some(meta),
        instructions: vec![swap, spend, receive],
    };
    let events = meteora(&block_of(vec![tx])).swaps;
    assert_eq!(events.len(), 1);
    let ev = &events[0];
    assert_eq!(ev.platform, "meteora_dlmm");
    assert_eq!(ev.pool, bs58::encode(key(2)).into_string());
    assert_eq!(ev.signature, bs58::encode(vec![9u8; 64]).into_string());
    assert_eq!(ev.user, bs58::encode(key(1)).into_string());
    assert_eq!(ev.base_mint, "MINTT");
    assert_eq!(ev.quote_mint, WSOL);
    assert_eq!(ev.base_amount, 42);
    assert_eq!(ev.quote_amount, 1_000_000);
    assert_eq!(ev.base_decimals, 6);
    assert_eq!(ev.quote_decimals, 9);
    assert_eq!(ev.side, Side::Buy);
    assert_eq!(ev.slot, 7);
    assert_eq!(ev.timestamp_ms, 1_600_000_000_000);
    assert_eq!(ev.tx_index, 0);
}

/// S2: a DAMM swap resolved through `TransferChecked` instructions, whose
/// mint indices override the balance records. The user received wrapped SOL,
/// so the event is a sale of the spent mint.
#[test]
fn damm_sell_via_transfer_checked() {
    let mut keys = standard_keys(&DAMM_PROGRAM_ID);
    keys[8] = bs58::decode(WSOL).into_vec().unwrap();
    // keys[9] is an arbitrary mint account
    let mint_t = bs58::encode(key(8)).into_string();
    let swap = Instruction {
        program_id_index: 1,
        // pool at slot 1, user input at slot 2, user output at slot 3
        accounts: vec![0, 3, 4, 5],
        data: swap_data(DLMM_SWAP2),
        stack_height: Some(1),
    };
    let spend = Instruction {
        program_id_index: 2,
        // TransferChecked accounts: source, mint, destination, authority
        accounts: vec![4, 9, 6, 0],
        data: transfer_checked_data(5, 6),
        stack_height: Some(2),
    };
    let receive = Instruction {
        program_id_index: 2,
        accounts: vec![7, 8, 5, 0],
        data: transfer_checked_data(900, 9),
        stack_height: Some(2),
    };
    let tx = Transaction {
        signatures: vec![vec![1u8; 64]],
        message_account_keys: Some(keys),
        meta: Some(empty_meta()),
        instructions: vec![swap, spend, receive],
    };
    let events = meteora(&block_of(vec![tx])).swaps;
    assert_eq!(events.len(), 1);
    let ev = &events[0];
    assert_eq!(ev.platform, "meteora_damm");
    assert_eq!(ev.pool, bs58::encode(key(2)).into_string());
    assert_eq!(ev.side, Side::Sell);
    assert_eq!(ev.base_mint, mint_t);
    assert_eq!(ev.quote_mint, WSOL);
    assert_eq!(ev.base_amount, 5);
    assert_eq!(ev.quote_amount, 900);
    assert_eq!(ev.base_decimals, 6);
    assert_eq!(ev.quote_decimals, 9);
}

/// S3: a router transaction with two swap invocations. Each event draws its
/// amounts only from the transfers nested under its own instruction, not
/// from the transaction-wide deltas.
#[test]
fn router_two_hops_scoped_amounts() {
    // 0 signer, 1 DLMM, 2 token program, 3 pool, 4..=7 user accounts,
    // 8 and 9 counterparties.
    let keys = vec![
        key(1),
        DLMM_PROGRAM_ID.to_vec(),
        TOKEN_PROGRAM_ID.to_vec(),
        key(2),
        key(3),
        key(4),
        key(5),
        key(6),
        key(7),
        key(8),
    ];
    let swap1 = Instruction {
        program_id_index: 1,
        accounts: vec![3, 0, 0, 0, 4, 5],
        data: swap_data(DLMM_SWAP),
        stack_height: Some(1),
    };
    let hop1_spend = Instruction {
        program_id_index: 2,
        accounts: vec![4, 8],
        data: transfer_data(100),
        stack_height: Some(2),
    };
    let hop1_receive = Instruction {
        program_id_index: 2,
        accounts: vec![9, 5],
        data: transfer_data(50),
        stack_height: Some(2),
    };
    let swap2 = Instruction {
        program_id_index: 1,
        accounts: vec![3, 0, 0, 0, 6, 7],
        data: swap_data(DLMM_SWAP),
        stack_height: Some(1),
    };
    let hop2_spend = Instruction {
        program_id_index: 2,
        accounts: vec![6, 8],
        data: transfer_data(200),
        stack_height: Some(2),
    };
    let hop2_receive = Instruction {
        program_id_index: 2,
        accounts: vec![9, 7],
        data: transfer_data(75),
        stack_height: Some(2),
    };
    let mut meta = empty_meta();
    meta.post_token_balances.push(balance(4, "MINTA", "0", 2));
    meta.post_token_balances.push(balance(5, "MINTB", "50", 3));
    meta.post_token_balances.push(balance(6, "MINTC", "0", 4));
    meta.post_token_balances.push(balance(7, "MINTD", "75", 5));
    let tx = Transaction {
        signatures: vec![vec![2u8; 64]],
        message_account_keys: Some(keys),
        meta: Some(meta),
        instructions: vec![swap1, hop1_spend, hop1_receive, swap2, hop2_spend, hop2_receive],
    };
    let events = meteora(&block_of(vec![tx])).swaps;
    assert_eq!(events.len(), 2);
    assert_eq!(events[0].quote_mint, "MINTA");
    assert_eq!(events[0].base_mint, "MINTB");
    assert_eq!(events[0].quote_amount, 100);
    assert_eq!(events[0].base_amount, 50);
    assert_eq!(events[1].quote_mint, "MINTC");
    assert_eq!(events[1].base_mint, "MINTD");
    assert_eq!(events[1].quote_amount, 200);
    assert_eq!(events[1].base_amount, 75);
    assert_eq!(events[0].side, Side::Unknown);
    assert_eq!(events[1].side, Side::Unknown);
}

/// S4: no instruction carries a stack height, so the primary scan defers and
/// the balance deltas of the declared user accounts decide.
#[test]
fn missing_stack_heights_fallback() {
    let swap = Instruction {
        program_id_index: 1,
        accounts: vec![3, 0, 0, 0, 4, 5],
        data: swap_data(DLMM_SWAP),
        stack_height: None,
    };
    let spend = Instruction {
        program_id_index: 2,
        accounts: vec![4, 6],
        data: transfer_data(40),
        stack_height: None,
    };
    let mut meta = empty_meta();
    meta.pre_token_balances.push(balance(4, WSOL, "100", 9));
    meta.post_token_balances.push(balance(4, WSOL, "60", 9));
    meta.pre_token_balances.push(balance(5, "MINTT", "0", 6));
    meta.post_token_balances.push(balance(5, "MINTT", "7", 6));
    let tx = Transaction {
        signatures: vec![vec![3u8; 64]],
        message_account_keys: Some(standard_keys(&DLMM_PROGRAM_ID)),
        meta: Some(meta),
        instructions: vec![swap, spend],
    };
    let events = meteora(&block_of(vec![tx])).swaps;
    assert_eq!(events.len(), 1);
    let ev = &events[0];
    assert_eq!(ev.side, Side::Buy);
    assert_eq!(ev.base_mint, "MINTT");
    assert_eq!(ev.quote_mint, WSOL);
    assert_eq!(ev.base_amount, 7);
    assert_eq!(ev.quote_amount, 40);
}

/// S5: a transaction whose metadata carries an error emits nothing,
/// regardless of its instructions.
#[test]
fn failed_transaction_emits_nothing() {
    let swap = Instruction {
        program_id_index: 1,
        accounts: vec![3, 0, 0, 0, 4, 5],
        data: swap_data(DLMM_SWAP),
        stack_height: Some(1),
    };
    let mut meta = empty_meta();
    meta.err = true;
    let tx = Transaction {
        signatures: vec![vec![4u8; 64]],
        message_account_keys: Some(standard_keys(&DLMM_PROGRAM_ID)),
        meta: Some(meta),
        instructions: vec![swap],
    };
    let events = meteora(&block_of(vec![tx])).swaps;
    assert_eq!(events.len(), 0);
}

/// S6: an unrecognized discriminator under a target program id matches
/// nothing.
#[test]
fn unknown_discriminator_no_event() {
    let swap = Instruction {
        program_id_index: 1,
        accounts: vec![3, 0, 0, 0, 4, 5],
        data: vec![1, 2, 3, 4, 5, 6, 7, 8, 0, 0],
        stack_height: Some(1),
    };
    let tx = Transaction {
        signatures: vec![vec![5u8; 64]],
        message_account_keys: Some(standard_keys(&DLMM_PROGRAM_ID)),
        meta: Some(empty_meta()),
        instructions: vec![swap],
    };
    let events = meteora(&block_of(vec![tx])).swaps;
    assert_eq!(events.len(), 0);
}

/// Data shorter than 8 bytes never matches, even when it is a prefix of a
/// known discriminator.
#[test]
fn short_data_never_matches() {
    let swap = Instruction {
        program_id_index: 1,
        accounts: vec![3, 0, 0, 0, 4, 5],
        data: DLMM_SWAP[..7].to_vec(),
        stack_height: Some(1),
    };
    let tx = Transaction {
        signatures: vec![vec![6u8; 64]],
        message_account_keys: Some(standard_keys(&DLMM_PROGRAM_ID)),
        meta: Some(empty_meta()),
        instructions: vec![swap],
    };
    assert_eq!(meteora(&block_of(vec![tx])).swaps.len(), 0);
}

/// Program id matching is exact: one flipped byte and nothing matches.
#[test]
fn near_miss_program_id_no_event() {
    let mut near_miss = DLMM_PROGRAM_ID;
    near_miss[31] ^= 1;
    let swap = Instruction {
        program_id_index: 1,
        accounts: vec![3, 0, 0, 0, 4, 5],
        data: swap_data(DLMM_SWAP),
        stack_height: Some(1),
    };
    let tx = Transaction {
        signatures: vec![vec![7u8; 64]],
        message_account_keys: Some(standard_keys(&near_miss)),
        meta: Some(empty_meta()),
        instructions: vec![swap],
    };
    assert_eq!(meteora(&block_of(vec![tx])).swaps.len(), 0);
}

/// The basic swap bytes are shared across programs, but under a program id
/// outside the known three they yield nothing.
#[test]
fn shared_swap_bytes_need_known_program() {
    let swap = Instruction {
        // the token program carries the swap bytes here
        program_id_index: 2,
        accounts: vec![3, 0, 0, 0, 4, 5],
        data: swap_data(DLMM_SWAP),
        stack_height: Some(1),
    };
    let tx = Transaction {
        signatures: vec![vec![8u8; 64]],
        message_account_keys: Some(standard_keys(&DLMM_PROGRAM_ID)),
        meta: Some(empty_meta()),
        instructions: vec![swap],
    };
    assert_eq!(meteora(&block_of(vec![tx])).swaps.len(), 0);
}

/// A matched swap that neither resolver can value still emits exactly one
/// event: the placeholder, carrying the invocation's identity.
#[test]
fn unresolved_swap_emits_placeholder() {
    let swap = Instruction {
        program_id_index: 1,
        accounts: vec![3, 0, 0, 0, 4, 5],
        data: swap_data(DLMM_SWAP),
        stack_height: Some(1),
    };
    let tx = Transaction {
        signatures: vec![vec![10u8; 64]],
        message_account_keys: Some(standard_keys(&DBC_PROGRAM_ID)),
        meta: Some(empty_meta()),
        instructions: vec![swap],
    };
    let events = meteora(&block_of(vec![tx])).swaps;
    assert_eq!(events.len(), 1);
    let ev = &events[0];
    assert_eq!(ev.platform, "meteora_dbc");
    assert_eq!(ev.base_mint, "");
    assert_eq!(ev.quote_mint, "");
    assert_eq!(ev.base_amount, 0);
    assert_eq!(ev.quote_amount, 0);
    assert_eq!(ev.base_decimals, 0);
    assert_eq!(ev.quote_decimals, 0);
    assert_eq!(ev.side, Side::Unknown);
    // the DBC pool sits at slot 2 of the instruction's accounts
    assert_eq!(ev.pool, bs58::encode(key(1)).into_string());
}

/// Decoding is deterministic: the same block yields the same batch,
/// byte for byte.
#[test]
fn decode_twice_same_batch() {
    let swap = Instruction {
        program_id_index: 1,
        accounts: vec![3, 0, 0, 0, 4, 5],
        data: swap_data(DLMM_SWAP),
        stack_height: Some(1),
    };
    let spend = Instruction {
        program_id_index: 2,
        accounts: vec![4, 6],
        data: transfer_data(11),
        stack_height: Some(2),
    };
    let receive = Instruction {
        program_id_index: 2,
        accounts: vec![7, 5],
        data: transfer_data(13),
        stack_height: Some(2),
    };
    let mut meta = empty_meta();
    meta.post_token_balances.push(balance(4, "MINTA", "0", 1));
    meta.post_token_balances.push(balance(5, "MINTB", "13", 2));
    let tx = Transaction {
        signatures: vec![vec![11u8; 64]],
        message_account_keys: Some(standard_keys(&DLMM_PROGRAM_ID)),
        meta: Some(meta),
        instructions: vec![swap, spend, receive],
    };
    let block = block_of(vec![tx]);
    assert_eq!(meteora(&block), meteora(&block));
}

/// Event order follows (transaction index, instruction order); a failed
/// transaction in the middle contributes nothing and its index never
/// appears.
#[test]
fn events_ordered_and_failed_skipped() {
    let make_tx = |sig: u8, err: bool| {
        let swap = Instruction {
            program_id_index: 1,
            accounts: vec![3, 0, 0, 0, 4, 5],
            data: swap_data(DLMM_SWAP),
            stack_height: Some(1),
        };
        let mut meta = empty_meta();
        meta.err = err;
        Transaction {
            signatures: vec![vec![sig; 64]],
            message_account_keys: Some(standard_keys(&DLMM_PROGRAM_ID)),
            meta: Some(meta),
            instructions: vec![swap.clone(), swap],
        }
    };
    let block = block_of(vec![make_tx(1, false), make_tx(2, true), make_tx(3, false)]);
    let events = meteora(&block).swaps;
    assert_eq!(events.len(), 4);
    assert_eq!(
        events.iter().map(|e| e.tx_index).collect::<Vec<u32>>(),
        vec![0, 0, 2, 2]
    );
}

/// The wrapped-SOL mint's own bytes encode back to its well-known base58
/// text: the encoding really encodes.
#[test]
fn pool_text_is_base58_of_pool_key() {
    let mut keys = standard_keys(&DLMM_PROGRAM_ID);
    keys[3] = bs58::decode(WSOL).into_vec().unwrap();
    let swap = Instruction {
        program_id_index: 1,
        accounts: vec![3, 0, 0, 0, 4, 5],
        data: swap_data(DLMM_SWAP),
        stack_height: Some(1),
    };
    let tx = Transaction {
        signatures: vec![vec![12u8; 64]],
        message_account_keys: Some(keys),
        meta: Some(empty_meta()),
        instructions: vec![swap],
    };
    let events = meteora(&block_of(vec![tx])).swaps;
    assert_eq!(events.len(), 1);
    assert_eq!(events[0].pool, WSOL);
}

/// A token-to-token swap keeps the received mint as base with side unknown.
#[test]
fn token_to_token_side_unknown() {
    let swap = Instruction {
        program_id_index: 1,
        accounts: vec![3, 0, 0, 0, 4, 5],
        data: swap_data(DLMM_SWAP),
        stack_height: Some(1),
    };
    let spend = Instruction {
        program_id_index: 2,
        accounts: vec![4, 6],
        data: transfer_data(21),
        stack_height: Some(2),
    };
    let receive = Instruction {
        program_id_index: 2,
        accounts: vec![7, 5],
        data: transfer_data(34),
        stack_height: Some(2),
    };
    let mut meta = empty_meta();
    meta.post_token_balances.push(balance(4, "MINTA", "0", 1));
    meta.post_token_balances.push(balance(5, "MINTB", "34", 2));
    let tx = Transaction {
        signatures: vec![vec![13u8; 64]],
        message_account_keys: Some(standard_keys(&DLMM_PROGRAM_ID)),
        meta: Some(meta),
        instructions: vec![swap, spend, receive],
    };
    let events = meteora(&block_of(vec![tx])).swaps;
    assert_eq!(events.len(), 1);
    assert_eq!(events[0].side, Side::Unknown);
    assert_eq!(events[0].base_mint, "MINTB");
    assert_eq!(events[0].quote_mint, "MINTA");
}

/// When the fallback finds the user received wrapped SOL, the event is a
/// sale and wrapped SOL is the quote mint.
#[test]
fn fallback_receiving_wsol_is_sell() {
    let swap = Instruction {
        program_id_index: 1,
        accounts: vec![3, 0, 0, 0, 4, 5],
        data: swap_data(DLMM_SWAP),
        stack_height: None,
    };
    let mut meta = empty_meta();
    meta.pre_token_balances.push(balance(4, "MINTT", "50", 6));
    meta.post_token_balances.push(balance(4, "MINTT", "20", 6));
    meta.pre_token_balances.push(balance(5, WSOL, "0", 9));
    meta.post_token_balances.push(balance(5, WSOL, "900", 9));
    let tx = Transaction {
        signatures: vec![vec![14u8; 64]],
        message_account_keys: Some(standard_keys(&DLMM_PROGRAM_ID)),
        meta: Some(meta),
        instructions: vec![swap],
    };
    let events = meteora(&block_of(vec![tx])).swaps;
    assert_eq!(events.len(), 1);
    let ev = &events[0];
    assert_eq!(ev.side, Side::Sell);
    assert_eq!(ev.quote_mint, WSOL);
    assert_eq!(ev.base_mint, "MINTT");
    assert_eq!(ev.base_amount, 30);
    assert_eq!(ev.quote_amount, 900);
}

/// Equal mints on both sides make the resolution unusable: the event is a
/// placeholder.
#[test]
fn equal_mints_yield_placeholder() {
    let swap = Instruction {
        program_id_index: 1,
        accounts: vec![3, 0, 0, 0, 4, 5],
        data: swap_data(DLMM_SWAP),
        stack_height: None,
    };
    let mut meta = empty_meta();
    meta.pre_token_balances.push(balance(4, "MINTA", "50", 6));
    meta.post_token_balances.push(balance(4, "MINTA", "20", 6));
    meta.pre_token_balances.push(balance(5, "MINTA", "0", 6));
    meta.post_token_balances.push(balance(5, "MINTA", "30", 6));
    let tx = Transaction {
        signatures: vec![vec![15u8; 64]],
        message_account_keys: Some(standard_keys(&DLMM_PROGRAM_ID)),
        meta: Some(meta),
        instructions: vec![swap],
    };
    let events = meteora(&block_of(vec![tx])).swaps;
    assert_eq!(events.len(), 1);
    assert_eq!(events[0].base_mint, "");
    assert_eq!(events[0].quote_mint, "");
    assert_eq!(events[0].side, Side::Unknown);
}

/// Re-entrant transfers into the same user account accumulate, and the
/// addition saturates instead of wrapping.
#[test]
fn saturating_accumulation() {
    let swap = Instruction {
        program_id_index: 1,
        accounts: vec![3, 0, 0, 0, 4, 5],
        data: swap_data(DLMM_SWAP),
        stack_height: Some(1),
    };
    let spend1 = Instruction {
        program_id_index: 2,
        accounts: vec![4, 6],
        data: transfer_data(u64::MAX - 1),
        stack_height: Some(2),
    };
    let spend2 = Instruction {
        program_id_index: 2,
        accounts: vec![4, 6],
        data: transfer_data(7),
        stack_height: Some(2),
    };
    let receive = Instruction {
        program_id_index: 2,
        accounts: vec![7, 5],
        data: transfer_data(3),
        stack_height: Some(2),
    };
    let mut meta = empty_meta();
    meta.post_token_balances.push(balance(4, "MINTA", "0", 1));
    meta.post_token_balances.push(balance(5, "MINTB", "3", 2));
    let tx = Transaction {
        signatures: vec![vec![16u8; 64]],
        message_account_keys: Some(standard_keys(&DLMM_PROGRAM_ID)),
        meta: Some(meta),
        instructions: vec![swap, spend1, spend2, receive],
    };
    let events = meteora(&block_of(vec![tx])).swaps;
    assert_eq!(events.len(), 1);
    assert_eq!(events[0].quote_amount, u64::MAX);
    assert_eq!(events[0].base_amount, 3);
}

/// The scan stops at the first entry back at or above the matched depth:
/// transfers after the subtree do not count.
#[test]
fn scan_stops_at_subtree_end() {
    let swap = Instruction {
        program_id_index: 1,
        accounts: vec![3, 0, 0, 0, 4, 5],
        data: swap_data(DLMM_SWAP),
        stack_height: Some(1),
    };
    let spend = Instruction {
        program_id_index: 2,
        accounts: vec![4, 6],
        data: transfer_data(10),
        stack_height: Some(2),
    };
    let receive = Instruction {
        program_id_index: 2,
        accounts: vec![7, 5],
        data: transfer_data(20),
        stack_height: Some(2),
    };
    // back at top level: ends the subtree
    let unrelated_top = Instruction {
        program_id_index: 2,
        accounts: vec![7, 5],
        data: transfer_data(1000),
        stack_height: Some(1),
    };
    let mut meta = empty_meta();
    meta.post_token_balances.push(balance(4, "MINTA", "0", 1));
    meta.post_token_balances.push(balance(5, "MINTB", "1020", 2));
    let tx = Transaction {
        signatures: vec![vec![17u8; 64]],
        message_account_keys: Some(standard_keys(&DLMM_PROGRAM_ID)),
        meta: Some(meta),
        instructions: vec![swap, spend, receive, unrelated_top],
    };
    let events = meteora(&block_of(vec![tx])).swaps;
    assert_eq!(events.len(), 1);
    assert_eq!(events[0].base_amount, 20);
    assert_eq!(events[0].quote_amount, 10);
}

/// A block without a block time stamps its events with zero; one with a
/// block time stamps them with that time in milliseconds.
#[test]
fn timestamp_from_block_time() {
    let swap = Instruction {
        program_id_index: 1,
        accounts: vec![3, 0, 0, 0, 4, 5],
        data: swap_data(DLMM_SWAP),
        stack_height: Some(1),
    };
    let tx = Transaction {
        signatures: vec![vec![18u8; 64]],
        message_account_keys: Some(standard_keys(&DAMM_PROGRAM_ID)),
        meta: Some(empty_meta()),
        instructions: vec![swap],
    };
    let mut block = block_of(vec![tx]);
    block.block_time = None;
    let events = meteora(&block).swaps;
    assert_eq!(events.len(), 1);
    assert_eq!(events[0].timestamp_ms, 0);
    assert_eq!(events[0].platform, "meteora_damm");
    block.block_time = Some(5);
    let events = meteora(&block).swaps;
    assert_eq!(events[0].timestamp_ms, 5000);
}

/// A transaction without metadata is skipped entirely.
#[test]
fn transaction_without_meta_skipped() {
    let swap = Instruction {
        program_id_index: 1,
        accounts: vec![3, 0, 0, 0, 4, 5],
        data: swap_data(DLMM_SWAP),
        stack_height: Some(1),
    };
    let tx = Transaction {
        signatures: vec![vec![19u8; 64]],
        message_account_keys: Some(standard_keys(&DLMM_PROGRAM_ID)),
        meta: None,
        instructions: vec![swap],
    };
    assert_eq!(meteora(&block_of(vec![tx])).swaps.len(), 0);
}

/// The 2022 token program's transfers count like the legacy ones.
#[test]
fn token_2022_transfers_count() {
    let mut keys = standard_keys(&DBC_PROGRAM_ID);
    keys[2] = TOKEN_2022_PROGRAM_ID.to_vec();
    let swap = Instruction {
        program_id_index: 1,
        // DBC: pool at slot 2, user input at slot 3, user output at slot 4
        accounts: vec![0, 0, 3, 4, 5],
        data: swap_data(DLMM_SWAP2),
        stack_height: Some(1),
    };
    let spend = Instruction {
        program_id_index: 2,
        accounts: vec![4, 6],
        data: transfer_data(500),
        stack_height: Some(2),
    };
    let receive = Instruction {
        program_id_index: 2,
        accounts: vec![7, 5],
        data: transfer_data(600),
        stack_height: Some(2),
    };
    let mut meta = empty_meta();
    meta.post_token_balances.push(balance(4, "MINTA", "0", 1));
    meta.post_token_balances.push(balance(5, "MINTB", "600", 2));
    let tx = Transaction {
        signatures: vec![vec![20u8; 64]],
        message_account_keys: Some(keys),
        meta: Some(meta),
        instructions: vec![swap, spend, receive],
    };
    let events = meteora(&block_of(vec![tx])).swaps;
    assert_eq!(events.len(), 1);
    assert_eq!(events[0].platform, "meteora_dbc");
    assert_eq!(events[0].quote_amount, 500);
    assert_eq!(events[0].base_amount, 600);
}

/// Account keys extend with the loaded writable and readonly addresses, in
/// that order; a program id referenced through the extension still matches.
#[test]
fn loaded_addresses_extend_keys() {
    // message keys: signer, token program, pool, user in, user out, two
    // counterparties; the target program id arrives as a loaded address.
    let keys = vec![
        key(1),
        TOKEN_PROGRAM_ID.to_vec(),
        key(2),
        key(3),
        key(4),
        key(5),
        key(6),
    ];
    let swap = Instruction {
        // index 7 is the first loaded writable address
        program_id_index: 7,
        accounts: vec![2, 0, 0, 0, 3, 4],
        data: swap_data(DLMM_SWAP),
        stack_height: Some(1),
    };
    let spend = Instruction {
        program_id_index: 1,
        accounts: vec![3, 5],
        data: transfer_data(8),
        stack_height: Some(2),
    };
    let receive = Instruction {
        program_id_index: 1,
        accounts: vec![6, 4],
        data: transfer_data(9),
        stack_height: Some(2),
    };
    let mut meta = empty_meta();
    meta.loaded_writable_addresses.push(DLMM_PROGRAM_ID.to_vec());
    meta.post_token_balances.push(balance(3, "MINTA", "0", 1));
    meta.post_token_balances.push(balance(4, "MINTB", "9", 2));
    let tx = Transaction {
        signatures: vec![vec![21u8; 64]],
        message_account_keys: Some(keys),
        meta: Some(meta),
        instructions: vec![swap, spend, receive],
    };
    let events = meteora(&block_of(vec![tx])).swaps;
    assert_eq!(events.len(), 1);
    assert_eq!(events[0].platform, "meteora_dlmm");
    assert_eq!(events[0].quote_amount, 8);
    assert_eq!(events[0].base_amount, 9);
}

/// A transaction without signatures still decodes; its events carry an empty
/// signature.
#[test]
fn no_signatures_empty_signature_text() {
    let swap = Instruction {
        program_id_index: 1,
        accounts: vec![3, 0, 0, 0, 4, 5],
        data: swap_data(DLMM_SWAP),
        stack_height: Some(1),
    };
    let tx = Transaction {
        signatures: Vec::new(),
        message_account_keys: Some(standard_keys(&DLMM_PROGRAM_ID)),
        meta: Some(empty_meta()),
        instructions: vec![swap],
    };
    let events = meteora(&block_of(vec![tx])).swaps;
    assert_eq!(events.len(), 1);
    assert_eq!(events[0].signature, "");
    assert_eq!(events[0].user, bs58::encode(key(1)).into_string());
}
