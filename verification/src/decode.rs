//! The per-transaction decoder and the per-block driver.
//!
//! For each transaction that carries metadata and no error, every flattened
//! instruction that invokes one of the three target programs with a known
//! swap discriminator yields exactly one event — resolved when a resolver
//! succeeds with distinct mints, a placeholder otherwise.

use vstd::prelude::*;
use vstd::slice::{slice_subrange, slice_to_vec};

use crate::constants::{
    get_pool_account_index, get_user_token_account_indices, is_swap_discriminator, match_program,
    platform_name, spec_is_swap_discriminator, spec_match_program, spec_platform_name,
    spec_pool_account_index,
    spec_user_token_account_indices, Platform,
};
use crate::encode::{base58_of, bs58_encode};
use crate::model::{
    Block, BlockModel, InstructionModel, Side, SwapEvent, SwapEventModel, SwapEvents, Transaction,
    TransactionMeta, TransactionMetaModel, TransactionModel,
};
use crate::resolver::{
    extract_swap_amounts_by_accounts, extract_swap_amounts_by_inner_transfers,
    spec_extract_by_accounts, spec_extract_by_inner_transfers,
};
use crate::util::{key_at, seq_get};

verus! {

/// The effective account-key list of a transaction: the message's keys
/// followed by the loaded writable and then the loaded readonly addresses.
pub open spec fn spec_resolved_account_keys(
    message_account_keys: Seq<Seq<u8>>,
    meta: Option<TransactionMetaModel>,
) -> Seq<Seq<u8>> {
    match meta {
        Some(m) => message_account_keys + m.loaded_writable_addresses
            + m.loaded_readonly_addresses,
        None => message_account_keys,
    }
}

/// Append deep copies of all of `src` to `dst`.
fn push_all(dst: &mut Vec<Vec<u8>>, src: &Vec<Vec<u8>>)
    ensures
        final(dst).deep_view() == old(dst).deep_view() + src.deep_view(),
{
    let n = src.len();
    let mut j: usize = 0;
    proof {
        assert(dst.deep_view() =~= old(dst).deep_view() + src.deep_view().subrange(0, 0));
    }
    while j < n
        invariant
            j <= n,
            n == src@.len(),
            dst.deep_view() == old(dst).deep_view() + src.deep_view().subrange(0, j as int),
        decreases n - j,
    {
        let k = slice_to_vec(src[j].as_slice());
        proof {
            assert(k.deep_view() =~= src.deep_view()[j as int]);
        }
        let ghost dv_before = dst.deep_view();
        let ghost k_dv = k.deep_view();
        dst.push(k);
        proof {
            assert(dst.deep_view() =~= dv_before.push(k_dv));
            assert(dv_before.push(k_dv) =~= old(dst).deep_view() + src.deep_view().subrange(
                0,
                j + 1,
            ));
        }
        j = j + 1;
    }
    proof {
        assert(src.deep_view().subrange(0, n as int) =~= src.deep_view());
    }
}

/// Build the effective account-key list: message keys, then the loaded
/// writable addresses, then the loaded readonly ones.
pub fn resolved_account_keys(
    message_account_keys: &Vec<Vec<u8>>,
    meta: Option<&TransactionMeta>,
) -> (r: Vec<Vec<u8>>)
    ensures
        r.deep_view() == spec_resolved_account_keys(
            message_account_keys.deep_view(),
            meta.deep_view(),
        ),
{
    let mut keys: Vec<Vec<u8>> = Vec::new();
    proof {
        assert(keys.deep_view() =~= Seq::<Seq<u8>>::empty());
    }
    push_all(&mut keys, message_account_keys);
    match meta {
        Some(m) => {
            push_all(&mut keys, &m.loaded_writable_addresses);
            push_all(&mut keys, &m.loaded_readonly_addresses);
            proof {
                assert(keys.deep_view() =~= message_account_keys.deep_view()
                    + m.deep_view().loaded_writable_addresses
                    + m.deep_view().loaded_readonly_addresses);
            }
        },
        None => {
            proof {
                assert(keys.deep_view() =~= message_account_keys.deep_view());
            }
        },
    }
    keys
}

/// The account key at a position of the effective key list, if any.
pub fn get_account_key(
    message_account_keys: &Vec<Vec<u8>>,
    meta: &TransactionMeta,
    index: usize,
) -> (r: Option<Vec<u8>>)
    ensures
        r.deep_view() == seq_get(
            spec_resolved_account_keys(
                message_account_keys.deep_view(),
                Some(meta.deep_view()),
            ),
            index as int,
        ),
{
    let keys = resolved_account_keys(message_account_keys, Some(meta));
    if index < keys.len() {
        let k = slice_to_vec(keys[index].as_slice());
        proof {
            assert(k.deep_view() =~= keys.deep_view()[index as int]);
        }
        Some(k)
    } else {
        None
    }
}

/// The element of a byte list at a position, if any.
pub fn byte_at(bytes: &Vec<u8>, index: usize) -> (r: Option<u8>)
    ensures
        r == seq_get(bytes@, index as int),
{
    if index < bytes.len() {
        Some(bytes[index])
    } else {
        None
    }
}

/// The platform whose swap method an instruction invokes, if any: its
/// program-id index must resolve in the key list, the key must equal one of
/// the three target program ids, the data must be at least 8 bytes, and its
/// first 8 bytes must be a swap discriminator of that platform.
pub open spec fn spec_match_instruction(keys: Seq<Seq<u8>>, ins: InstructionModel) -> Option<
    Platform,
> {
    match seq_get(keys, ins.program_id_index as int) {
        Some(pid) => match spec_match_program(pid) {
            Some(platform) => if ins.data.len() < 8 {
                None
            } else if spec_is_swap_discriminator(
                ins.data.subrange(0, 8),
                platform,
            ) {
                Some(platform)
            } else {
                None
            },
            None => None,
        },
        None => None,
    }
}

/// The base58 text of the pool account of a matched instruction: the account
/// at the platform's pool slot, resolved through the key list; empty when
/// either lookup misses.
pub open spec fn spec_pool_text(
    keys: Seq<Seq<u8>>,
    ins: InstructionModel,
    platform: Platform,
) -> Seq<char> {
    match seq_get(ins.accounts, spec_pool_account_index(platform) as int) {
        Some(ai) => match seq_get(keys, ai as int) {
            Some(k) => base58_of(k),
            None => Seq::<char>::empty(),
        },
        None => Seq::<char>::empty(),
    }
}

/// A placeholder event: the swap invocation is observable — pool, signature,
/// user, platform, position — but its valuation is absent.
pub open spec fn spec_placeholder_event(
    pool: Seq<char>,
    signature: Seq<char>,
    user: Seq<char>,
    platform: Platform,
    timestamp_ms: u64,
    slot: u64,
    tx_index: u32,
) -> SwapEventModel {
    SwapEventModel {
        pool,
        signature,
        user,
        platform: spec_platform_name(platform),
        timestamp_ms,
        slot,
        tx_index,
        base_mint: Seq::<char>::empty(),
        quote_mint: Seq::<char>::empty(),
        base_amount: 0,
        quote_amount: 0,
        base_decimals: 0,
        quote_decimals: 0,
        side: Side::Unknown,
    }
}

/// The event emitted for the matched instruction at position `i`: the
/// inner-transfer scan is tried first, then the balance-delta fallback, and
/// a resolution with distinct mints fills the event; anything else leaves a
/// placeholder.
pub open spec fn spec_swap_event(
    instructions: Seq<InstructionModel>,
    i: int,
    platform: Platform,
    keys: Seq<Seq<u8>>,
    meta: TransactionMetaModel,
    signature: Seq<char>,
    user: Seq<char>,
    slot: u64,
    timestamp_ms: u64,
    tx_index: u32,
) -> SwapEventModel {
    let ins = instructions[i];
    let pool = spec_pool_text(keys, ins, platform);
    let slots = spec_user_token_account_indices(platform);
    let input_account_idx = seq_get(ins.accounts, slots.0 as int);
    let output_account_idx = seq_get(ins.accounts, slots.1 as int);
    let primary = spec_extract_by_inner_transfers(
        instructions,
        i,
        meta,
        keys,
        input_account_idx,
        output_account_idx,
    );
    let resolved = if primary is Some {
        primary
    } else {
        spec_extract_by_accounts(meta, input_account_idx, output_account_idx)
    };
    match resolved {
        Some(ra) => if ra.base_mint != ra.quote_mint {
            SwapEventModel {
                pool,
                signature,
                user,
                platform: spec_platform_name(platform),
                timestamp_ms,
                slot,
                tx_index,
                base_mint: ra.base_mint,
                quote_mint: ra.quote_mint,
                base_amount: ra.base_amount,
                quote_amount: ra.quote_amount,
                base_decimals: ra.base_decimals,
                quote_decimals: ra.quote_decimals,
                side: ra.side,
            }
        } else {
            spec_placeholder_event(pool, signature, user, platform, timestamp_ms, slot, tx_index)
        },
        None => spec_placeholder_event(
            pool,
            signature,
            user,
            platform,
            timestamp_ms,
            slot,
            tx_index,
        ),
    }
}

/// The events of the instructions from position `i` on: one per matched
/// instruction, in flattened order.
pub open spec fn spec_instruction_events(
    instructions: Seq<InstructionModel>,
    i: int,
    keys: Seq<Seq<u8>>,
    meta: TransactionMetaModel,
    signature: Seq<char>,
    user: Seq<char>,
    slot: u64,
    timestamp_ms: u64,
    tx_index: u32,
) -> Seq<SwapEventModel>
    decreases instructions.len() - i,
{
    if i < 0 || i >= instructions.len() {
        Seq::<SwapEventModel>::empty()
    } else {
        let rest = spec_instruction_events(
            instructions,
            i + 1,
            keys,
            meta,
            signature,
            user,
            slot,
            timestamp_ms,
            tx_index,
        );
        match spec_match_instruction(keys, instructions[i]) {
            Some(platform) => seq![
                spec_swap_event(
                    instructions,
                    i,
                    platform,
                    keys,
                    meta,
                    signature,
                    user,
                    slot,
                    timestamp_ms,
                    tx_index,
                ),
            ] + rest,
            None => rest,
        }
    }
}

/// The events of one transaction: none without a message, metadata or
/// account keys; else one per matched instruction, sharing the signature
/// (base58 of the first one, empty if there is none) and the user (base58
/// of the first resolved key).
pub open spec fn spec_transaction_events(
    tx: TransactionModel,
    slot: u64,
    timestamp_ms: u64,
    tx_index: u32,
) -> Seq<SwapEventModel> {
    match (tx.message_account_keys, tx.meta) {
        (Some(mk), Some(meta)) => {
            let keys = spec_resolved_account_keys(mk, Some(meta));
            if keys.len() == 0 {
                Seq::<SwapEventModel>::empty()
            } else {
                let signature = if tx.signatures.len() > 0 {
                    base58_of(tx.signatures[0])
                } else {
                    Seq::<char>::empty()
                };
                let user = base58_of(keys[0]);
                spec_instruction_events(
                    tx.instructions,
                    0,
                    keys,
                    meta,
                    signature,
                    user,
                    slot,
                    timestamp_ms,
                    tx_index,
                )
            }
        },
        _ => Seq::<SwapEventModel>::empty(),
    }
}

/// The block's timestamp in milliseconds: the block time times 1000 in
/// wrapping 64-bit arithmetic, zero when absent.
pub open spec fn spec_timestamp_ms(block_time: Option<i64>) -> u64 {
    match block_time {
        Some(t) => (t as u64).wrapping_mul(1000),
        None => 0u64,
    }
}

/// The events of the transactions from position `i` on: a failed transaction
/// (an error in its metadata) or one without metadata contributes nothing;
/// every other transaction contributes its events, tagged with its original
/// index.
pub open spec fn spec_block_events_from(
    transactions: Seq<TransactionModel>,
    i: int,
    slot: u64,
    timestamp_ms: u64,
) -> Seq<SwapEventModel>
    decreases transactions.len() - i,
{
    if i < 0 || i >= transactions.len() {
        Seq::<SwapEventModel>::empty()
    } else {
        let evs = match transactions[i].meta {
            Some(m) => if !m.err {
                spec_transaction_events(transactions[i], slot, timestamp_ms, i as u32)
            } else {
                Seq::<SwapEventModel>::empty()
            },
            None => Seq::<SwapEventModel>::empty(),
        };
        evs + spec_block_events_from(transactions, i + 1, slot, timestamp_ms)
    }
}

/// All events of a block, in emission order: transactions in block order,
/// and within a transaction the matched instructions in flattened order.
pub open spec fn spec_block_events(b: BlockModel) -> Seq<SwapEventModel> {
    spec_block_events_from(b.transactions, 0, b.slot, spec_timestamp_ms(b.block_time))
}

/// A placeholder event for a matched instruction whose valuation is absent.
fn placeholder_event(
    pool: String,
    signature: &String,
    user: &String,
    platform: Platform,
    timestamp_ms: u64,
    slot: u64,
    tx_index: u32,
) -> (r: SwapEvent)
    ensures
        r.deep_view() == spec_placeholder_event(
            pool@,
            signature@,
            user@,
            platform,
            timestamp_ms,
            slot,
            tx_index,
        ),
{
    SwapEvent {
        pool,
        signature: signature.clone(),
        user: user.clone(),
        platform: platform_name(platform),
        timestamp_ms,
        slot,
        tx_index,
        base_mint: String::new(),
        quote_mint: String::new(),
        base_amount: 0,
        quote_amount: 0,
        base_decimals: 0,
        quote_decimals: 0,
        side: Side::Unknown,
    }
}

/// Decode one transaction: the events of its matched swap instructions, or
/// nothing when it has no message, no metadata, no account keys, or no
/// matched instruction.
pub fn parse_transaction(tx: &Transaction, slot: u64, timestamp_ms: u64, tx_index: u32) -> (r:
    Option<Vec<SwapEvent>>)
    ensures
        match r {
            Some(v) => v.deep_view() == spec_transaction_events(
                tx.deep_view(),
                slot,
                timestamp_ms,
                tx_index,
            ) && v@.len() > 0,
            None => spec_transaction_events(tx.deep_view(), slot, timestamp_ms, tx_index).len()
                == 0,
        },
{
    let message_account_keys = match &tx.message_account_keys {
        Some(mk) => mk,
        None => {
            return None;
        },
    };
    let meta = match &tx.meta {
        Some(m) => m,
        None => {
            return None;
        },
    };

    let signature: String = if tx.signatures.len() > 0 {
        proof {
            assert(tx.signatures.deep_view()[0] =~= tx.signatures@[0]@);
        }
        bs58_encode(tx.signatures[0].as_slice())
    } else {
        String::new()
    };

    let account_keys = resolved_account_keys(message_account_keys, Some(meta));
    if account_keys.len() == 0 {
        return None;
    }
    proof {
        assert(account_keys.deep_view()[0] =~= account_keys@[0]@);
    }
    let user: String = bs58_encode(account_keys[0].as_slice());

    let instructions = &tx.instructions;
    let n = instructions.len();
    let mut events: Vec<SwapEvent> = Vec::new();
    let mut i: usize = 0;
    proof {
        assert(events.deep_view() =~= Seq::<SwapEventModel>::empty());
    }
    while i < n
        invariant
            i <= n,
            n == instructions@.len(),
            instructions == &tx.instructions,
            spec_instruction_events(
                instructions.deep_view(),
                0,
                account_keys.deep_view(),
                meta.deep_view(),
                signature@,
                user@,
                slot,
                timestamp_ms,
                tx_index,
            ) == events.deep_view() + spec_instruction_events(
                instructions.deep_view(),
                i as int,
                account_keys.deep_view(),
                meta.deep_view(),
                signature@,
                user@,
                slot,
                timestamp_ms,
                tx_index,
            ),
        decreases n - i,
    {
        let ins = &instructions[i];
        proof {
            assert(instructions.deep_view()[i as int] == ins.deep_view());
        }
        let matched: Option<Platform> = match key_at(
            &account_keys,
            ins.program_id_index as usize,
        ) {
            None => None,
            Some(pid) => {
                proof {
                    assert(pid.deep_view() =~= pid@);
                }
                match match_program(pid.as_slice()) {
                    None => None,
                    Some(platform) => if ins.data.len() < 8 {
                        None
                    } else if is_swap_discriminator(
                        slice_subrange(ins.data.as_slice(), 0, 8),
                        platform,
                    ) {
                        Some(platform)
                    } else {
                        None
                    },
                }
            },
        };
        proof {
            assert(matched == spec_match_instruction(account_keys.deep_view(), ins.deep_view()));
        }
        match matched {
            None => {},
            Some(platform) => {
                let pool_index = get_pool_account_index(platform);
                let pool: String = match byte_at(&ins.accounts, pool_index) {
                    Some(ai) => match key_at(&account_keys, ai as usize) {
                        Some(k) => {
                            proof {
                                assert(k.deep_view() =~= k@);
                            }
                            bs58_encode(k.as_slice())
                        },
                        None => String::new(),
                    },
                    None => String::new(),
                };

                let (input_slot, output_slot) = get_user_token_account_indices(platform);
                let input_account_idx = byte_at(&ins.accounts, input_slot);
                let output_account_idx = byte_at(&ins.accounts, output_slot);

                let resolved = match extract_swap_amounts_by_inner_transfers(
                    instructions,
                    i,
                    meta,
                    &account_keys,
                    input_account_idx,
                    output_account_idx,
                ) {
                    Some(ra) => Some(ra),
                    None => extract_swap_amounts_by_accounts(
                        meta,
                        input_account_idx,
                        output_account_idx,
                    ),
                };

                let ev: SwapEvent = match resolved {
                    Some(ra) => {
                        if !(ra.base_mint == ra.quote_mint) {
                            SwapEvent {
                                pool,
                                signature: signature.clone(),
                                user: user.clone(),
                                platform: platform_name(platform),
                                timestamp_ms,
                                slot,
                                tx_index,
                                base_mint: ra.base_mint,
                                quote_mint: ra.quote_mint,
                                base_amount: ra.base_amount,
                                quote_amount: ra.quote_amount,
                                base_decimals: ra.base_decimals,
                                quote_decimals: ra.quote_decimals,
                                side: ra.side,
                            }
                        } else {
                            placeholder_event(
                                pool,
                                &signature,
                                &user,
                                platform,
                                timestamp_ms,
                                slot,
                                tx_index,
                            )
                        }
                    },
                    None => placeholder_event(
                        pool,
                        &signature,
                        &user,
                        platform,
                        timestamp_ms,
                        slot,
                        tx_index,
                    ),
                };
                proof {
                    assert(ev.deep_view() =~~= spec_swap_event(
                        instructions.deep_view(),
                        i as int,
                        platform,
                        account_keys.deep_view(),
                        meta.deep_view(),
                        signature@,
                        user@,
                        slot,
                        timestamp_ms,
                        tx_index,
                    ));
                }
                let ghost events_before = events.deep_view();
                events.push(ev);
                proof {
                    assert(events.deep_view() =~= events_before + seq![ev.deep_view()]);
                    assert(events_before + (seq![ev.deep_view()] + spec_instruction_events(
                        instructions.deep_view(),
                        i + 1,
                        account_keys.deep_view(),
                        meta.deep_view(),
                        signature@,
                        user@,
                        slot,
                        timestamp_ms,
                        tx_index,
                    )) =~= events.deep_view() + spec_instruction_events(
                        instructions.deep_view(),
                        i + 1,
                        account_keys.deep_view(),
                        meta.deep_view(),
                        signature@,
                        user@,
                        slot,
                        timestamp_ms,
                        tx_index,
                    ));
                }
            },
        }
        i = i + 1;
    }
    proof {
        assert(events.deep_view() + spec_instruction_events(
            instructions.deep_view(),
            n as int,
            account_keys.deep_view(),
            meta.deep_view(),
            signature@,
            user@,
            slot,
            timestamp_ms,
            tx_index,
        ) =~= events.deep_view());
    }

    if events.len() == 0 {
        None
    } else {
        Some(events)
    }
}

/// Decode one block: iterate its transactions in order, skip those without
/// metadata or with an error, and collect every event of the rest. The
/// result is a function of the block alone: decoding the same block twice
/// yields the same batch.
pub fn meteora(block: &Block) -> (r: SwapEvents)
    ensures
        r.swaps.deep_view() == spec_block_events(block.deep_view()),
{
    let slot = block.slot;
    let timestamp_ms: u64 = match &block.block_time {
        Some(t) => (*t as u64).wrapping_mul(1000),
        None => 0,
    };

    let transactions = &block.transactions;
    let n = transactions.len();
    let mut swaps: Vec<SwapEvent> = Vec::new();
    let mut i: usize = 0;
    proof {
        assert(swaps.deep_view() =~= Seq::<SwapEventModel>::empty());
    }
    while i < n
        invariant
            i <= n,
            n == transactions@.len(),
            transactions == &block.transactions,
            spec_block_events_from(transactions.deep_view(), 0, slot, timestamp_ms)
                == swaps.deep_view() + spec_block_events_from(
                transactions.deep_view(),
                i as int,
                slot,
                timestamp_ms,
            ),
        decreases n - i,
    {
        let tx = &transactions[i];
        proof {
            assert(transactions.deep_view()[i as int] == tx.deep_view());
        }
        let eligible = match &tx.meta {
            Some(m) => !m.err,
            None => false,
        };
        if eligible {
            let tx_index: u32 = i as u32;
            match parse_transaction(tx, slot, timestamp_ms, tx_index) {
                Some(mut events) => {
                    let ghost swaps_before = swaps.deep_view();
                    let ghost events_dv = events.deep_view();
                    swaps.append(&mut events);
                    proof {
                        assert(swaps.deep_view() =~= swaps_before + events_dv);
                        assert(swaps_before + (events_dv + spec_block_events_from(
                            transactions.deep_view(),
                            i + 1,
                            slot,
                            timestamp_ms,
                        )) =~= swaps.deep_view() + spec_block_events_from(
                            transactions.deep_view(),
                            i + 1,
                            slot,
                            timestamp_ms,
                        ));
                    }
                },
                None => {
                    proof {
                        assert(spec_transaction_events(
                            transactions.deep_view()[i as int],
                            slot,
                            timestamp_ms,
                            i as u32,
                        ) =~= Seq::<SwapEventModel>::empty());
                    }
                },
            }
        }
        i = i + 1;
    }

    SwapEvents { swaps }
}

} // verus!
