//! The laws the decoder obeys, stated over the spec-level model and proved
//! once and for all: what emitted events look like, how many there are, in
//! what order they come, and how exact the matching is.

use vstd::prelude::*;

use crate::balances::spec_find_token_balance_change;
use crate::constants::{
    spec_is_swap_discriminator, spec_match_program, spec_platform_name, spec_program_id,
    spec_user_token_account_indices, spec_wsol_mint, Platform, DAMM_PROGRAM_ID, DBC_PROGRAM_ID,
    DLMM_PROGRAM_ID, DLMM_SWAP, DLMM_SWAP2, DLMM_SWAP_EXACT_OUT, DLMM_SWAP_EXACT_OUT2,
    DLMM_SWAP_WITH_PRICE_IMPACT, DLMM_SWAP_WITH_PRICE_IMPACT2,
};
use crate::decode::{spec_block_events, spec_block_events_from, spec_instruction_events,
    spec_match_instruction, spec_resolved_account_keys, spec_swap_event, spec_timestamp_ms,
    spec_transaction_events};
use crate::encode::base58_of;
use crate::model::{
    BlockModel, InstructionModel, ResolvedAmountsModel, Side, SwapEventModel, TransactionMetaModel,
    TransactionModel,
};
use crate::resolver::{
    spec_classify, spec_extract_by_accounts, spec_extract_by_inner_transfers,
    spec_initial_scan_state, spec_scan_inner_transfers,
};
use crate::util::seq_get;

verus! {

/// A placeholder event: empty mints, zero amounts and decimals, side
/// unknown.
pub open spec fn spec_is_placeholder(ev: SwapEventModel) -> bool {
    &&& ev.base_mint.len() == 0
    &&& ev.quote_mint.len() == 0
    &&& ev.base_amount == 0
    &&& ev.quote_amount == 0
    &&& ev.base_decimals == 0
    &&& ev.quote_decimals == 0
    &&& ev.side == Side::Unknown
}

/// What holds of every emitted event that is not a placeholder: the mints
/// differ, wrapped SOL is never the base mint, a wrapped-SOL quote always
/// comes with a definite side, and an unknown side means neither mint is
/// wrapped SOL.
pub open spec fn spec_event_ok(ev: SwapEventModel) -> bool {
    ||| spec_is_placeholder(ev)
    ||| {
        &&& ev.base_mint != ev.quote_mint
        &&& ev.base_mint != spec_wsol_mint()
        &&& (ev.quote_mint == spec_wsol_mint() ==> ev.side == Side::Buy || ev.side == Side::Sell)
        &&& ((ev.side == Side::Buy || ev.side == Side::Sell) ==> ev.quote_mint
            == spec_wsol_mint())
        &&& (ev.side == Side::Unknown ==> ev.quote_mint != spec_wsol_mint())
    }
}

/// Whether an event's platform tag is one of the three known tags.
pub open spec fn spec_platform_tag_known(tag: Seq<char>) -> bool {
    ||| tag == spec_platform_name(Platform::Dlmm)
    ||| tag == spec_platform_name(Platform::Damm)
    ||| tag == spec_platform_name(Platform::Dbc)
}

/// Side classification orients a (spent, received) pair relative to wrapped
/// SOL: spending wrapped SOL is a buy, receiving it a sale, and whenever
/// exactly one mint is wrapped SOL it becomes the quote mint; the base and
/// quote mints are always the received and spent mints in some order, so
/// the pair is distinct exactly when spent and received differ.
pub proof fn lemma_classify_orientation(
    spent_mint: Seq<char>,
    received_mint: Seq<char>,
    spent_amount: u64,
    received_amount: u64,
    spent_decimals: u32,
    received_decimals: u32,
)
    ensures
        ({
            let r = spec_classify(
                spent_mint,
                received_mint,
                spent_amount,
                received_amount,
                spent_decimals,
                received_decimals,
            );
            &&& spent_mint == spec_wsol_mint() && received_mint != spec_wsol_mint() ==> r.side
                == Side::Buy && r.quote_mint == spec_wsol_mint() && r.base_mint == received_mint
                && r.quote_amount == spent_amount && r.base_amount == received_amount
            &&& received_mint == spec_wsol_mint() && spent_mint != spec_wsol_mint() ==> r.side
                == Side::Sell && r.quote_mint == spec_wsol_mint() && r.base_mint == spent_mint
                && r.base_amount == spent_amount && r.quote_amount == received_amount
            &&& (r.side == Side::Buy || r.side == Side::Sell) ==> r.quote_mint == spec_wsol_mint()
                && r.base_mint != spec_wsol_mint()
            &&& r.side == Side::Unknown ==> (r.base_mint == spec_wsol_mint() <==> r.quote_mint
                == spec_wsol_mint())
            &&& (r.base_mint != r.quote_mint <==> spent_mint != received_mint)
        }),
{
}

/// Decoding is a function of the block alone: any two batches that meet the
/// driver's contract on the same block are equal.
pub proof fn lemma_decode_deterministic(
    first: Seq<SwapEventModel>,
    second: Seq<SwapEventModel>,
    b: BlockModel,
)
    requires
        first == spec_block_events(b),
        second == spec_block_events(b),
    ensures
        first == second,
{
}

/// An instruction whose data is shorter than 8 bytes never matches.
pub proof fn lemma_short_data_never_matches(keys: Seq<Seq<u8>>, ins: InstructionModel)
    requires
        ins.data.len() < 8,
    ensures
        spec_match_instruction(keys, ins) is None,
{
}

/// Program id matching is exact 32-byte equality: a key matches a platform
/// exactly when it equals that platform's program id, so near-misses match
/// nothing.
pub proof fn lemma_program_id_match_exact(key: Seq<u8>)
    ensures
        forall|p: Platform| spec_match_program(key) == Some(p) ==> key == spec_program_id(p),
        (forall|p: Platform| key != spec_program_id(p)) ==> spec_match_program(key) is None,
{
    assert(spec_program_id(Platform::Dlmm) == DLMM_PROGRAM_ID@);
    assert(spec_program_id(Platform::Damm) == DAMM_PROGRAM_ID@);
    assert(spec_program_id(Platform::Dbc) == DBC_PROGRAM_ID@);
}

/// Discriminator matching is exact 8-byte equality against the matched
/// platform's own set, and a match presupposes that the program id resolved
/// and equals that platform's: the shared basic byte patterns alone, under
/// any other program id, match nothing.
pub proof fn lemma_discriminator_match_exact(keys: Seq<Seq<u8>>, ins: InstructionModel)
    ensures
        ({
            let m = spec_match_instruction(keys, ins);
            forall|p: Platform|
                m == Some(p) ==> {
                    &&& ins.data.len() >= 8
                    &&& spec_is_swap_discriminator(ins.data.subrange(0, 8), p)
                    &&& seq_get(keys, ins.program_id_index as int) == Some(spec_program_id(p))
                }
        }),
        forall|d: Seq<u8>, p: Platform|
            #[trigger] spec_is_swap_discriminator(d, p) ==> d == DLMM_SWAP@ || d == DLMM_SWAP2@
                || d == DLMM_SWAP_EXACT_OUT@ || d == DLMM_SWAP_EXACT_OUT2@
                || d == DLMM_SWAP_WITH_PRICE_IMPACT@ || d == DLMM_SWAP_WITH_PRICE_IMPACT2@,
{
}

/// What side classification guarantees of any resolved pair.
pub open spec fn spec_resolved_oriented(ra: ResolvedAmountsModel) -> bool {
    &&& (ra.base_mint == spec_wsol_mint() ==> ra.quote_mint == spec_wsol_mint())
    &&& ((ra.side == Side::Buy || ra.side == Side::Sell) ==> ra.quote_mint == spec_wsol_mint()
        && ra.base_mint != spec_wsol_mint())
    &&& (ra.side == Side::Unknown ==> (ra.base_mint == spec_wsol_mint() <==> ra.quote_mint
        == spec_wsol_mint()))
}

/// Everything the downstream laws need of one emitted event.
pub open spec fn spec_event_well_formed(
    ev: SwapEventModel,
    tx_index: u32,
    slot: u64,
    timestamp_ms: u64,
) -> bool {
    &&& spec_event_ok(ev)
    &&& spec_platform_tag_known(ev.platform)
    &&& ev.tx_index == tx_index
    &&& ev.slot == slot
    &&& ev.timestamp_ms == timestamp_ms
}

/// Whether a transaction passes the block filter: metadata present, no
/// error.
pub open spec fn spec_eligible(tx: TransactionModel) -> bool {
    match tx.meta {
        Some(m) => !m.err,
        None => false,
    }
}

proof fn lemma_classify_oriented(
    spent_mint: Seq<char>,
    received_mint: Seq<char>,
    spent_amount: u64,
    received_amount: u64,
    spent_decimals: u32,
    received_decimals: u32,
)
    ensures
        spec_resolved_oriented(
            spec_classify(
                spent_mint,
                received_mint,
                spent_amount,
                received_amount,
                spent_decimals,
                received_decimals,
            ),
        ),
{
}

proof fn lemma_extract_inner_oriented(
    instructions: Seq<InstructionModel>,
    swap_instruction_index: int,
    meta: TransactionMetaModel,
    keys: Seq<Seq<u8>>,
    input_account_idx: Option<u8>,
    output_account_idx: Option<u8>,
)
    ensures
        match spec_extract_by_inner_transfers(
            instructions,
            swap_instruction_index,
            meta,
            keys,
            input_account_idx,
            output_account_idx,
        ) {
            Some(ra) => spec_resolved_oriented(ra) && ra.base_mint != ra.quote_mint,
            None => true,
        },
{
    match (input_account_idx, output_account_idx) {
        (Some(in_idx), Some(out_idx)) => match seq_get(instructions, swap_instruction_index) {
            Some(swap_ins) => match swap_ins.stack_height {
                Some(swap_height) => {
                    let st = spec_scan_inner_transfers(
                        instructions,
                        swap_instruction_index + 1,
                        swap_height,
                        keys,
                        meta,
                        in_idx,
                        out_idx,
                        spec_initial_scan_state(),
                    );
                    if !(st.input_amount == 0 || st.output_amount == 0) {
                        match (st.input_mint, st.output_mint) {
                            (Some(im), Some(om)) => {
                                if !(im.len() == 0 || om.len() == 0 || im == om) {
                                    let sd = match st.input_decimals {
                                        Some(d) => d,
                                        None => 0u32,
                                    };
                                    let rd = match st.output_decimals {
                                        Some(d) => d,
                                        None => 0u32,
                                    };
                                    lemma_classify_oriented(
                                        im,
                                        om,
                                        st.input_amount,
                                        st.output_amount,
                                        sd,
                                        rd,
                                    );
                                    lemma_classify_orientation(
                                        im,
                                        om,
                                        st.input_amount,
                                        st.output_amount,
                                        sd,
                                        rd,
                                    );
                                }
                            },
                            _ => {},
                        }
                    }
                },
                None => {},
            },
            None => {},
        },
        _ => {},
    }
}

proof fn lemma_extract_accounts_oriented(
    meta: TransactionMetaModel,
    input_account_idx: Option<u8>,
    output_account_idx: Option<u8>,
)
    ensures
        match spec_extract_by_accounts(meta, input_account_idx, output_account_idx) {
            Some(ra) => spec_resolved_oriented(ra),
            None => true,
        },
{
    match (input_account_idx, output_account_idx) {
        (Some(in_idx), Some(out_idx)) => {
            let input_change = spec_find_token_balance_change(
                meta.pre_token_balances,
                meta.post_token_balances,
                in_idx as u32,
            );
            let output_change = spec_find_token_balance_change(
                meta.pre_token_balances,
                meta.post_token_balances,
                out_idx as u32,
            );
            match (input_change, output_change) {
                (Some(ic), Some(oc)) => {
                    if ic.1 < 0 && oc.1 > 0 {
                        lemma_classify_oriented(
                            ic.0,
                            oc.0,
                            (-(ic.1 as int)) as u64,
                            oc.1 as u64,
                            ic.2,
                            oc.2,
                        );
                    }
                },
                _ => {},
            }
        },
        _ => {},
    }
}

proof fn lemma_swap_event_well_formed(
    instructions: Seq<InstructionModel>,
    i: int,
    platform: Platform,
    keys: Seq<Seq<u8>>,
    meta: TransactionMetaModel,
    signature: Seq<char>,
    user: Seq<char>,
    slot: u64,
    timestamp_ms: u64,
    tx_index: u32,
)
    ensures
        spec_event_well_formed(
            spec_swap_event(
                instructions,
                i,
                platform,
                keys,
                meta,
                signature,
                user,
                slot,
                timestamp_ms,
                tx_index,
            ),
            tx_index,
            slot,
            timestamp_ms,
        ),
{
    let ins = instructions[i];
    let slots = spec_user_token_account_indices(platform);
    let input_account_idx = seq_get(ins.accounts, slots.0 as int);
    let output_account_idx = seq_get(ins.accounts, slots.1 as int);
    lemma_extract_inner_oriented(
        instructions,
        i,
        meta,
        keys,
        input_account_idx,
        output_account_idx,
    );
    lemma_extract_accounts_oriented(meta, input_account_idx, output_account_idx);
}

proof fn lemma_instruction_events_well_formed(
    instructions: Seq<InstructionModel>,
    i: int,
    keys: Seq<Seq<u8>>,
    meta: TransactionMetaModel,
    signature: Seq<char>,
    user: Seq<char>,
    slot: u64,
    timestamp_ms: u64,
    tx_index: u32,
)
    ensures
        forall|k: int|
            0 <= k < spec_instruction_events(
                instructions,
                i,
                keys,
                meta,
                signature,
                user,
                slot,
                timestamp_ms,
                tx_index,
            ).len() ==> spec_event_well_formed(
                #[trigger] spec_instruction_events(
                    instructions,
                    i,
                    keys,
                    meta,
                    signature,
                    user,
                    slot,
                    timestamp_ms,
                    tx_index,
                )[k],
                tx_index,
                slot,
                timestamp_ms,
            ),
    decreases instructions.len() - i,
{
    if 0 <= i < instructions.len() {
        lemma_instruction_events_well_formed(
            instructions,
            i + 1,
            keys,
            meta,
            signature,
            user,
            slot,
            timestamp_ms,
            tx_index,
        );
        match spec_match_instruction(keys, instructions[i]) {
            Some(platform) => {
                lemma_swap_event_well_formed(
                    instructions,
                    i,
                    platform,
                    keys,
                    meta,
                    signature,
                    user,
                    slot,
                    timestamp_ms,
                    tx_index,
                );
                let ev0 = spec_swap_event(
                    instructions,
                    i,
                    platform,
                    keys,
                    meta,
                    signature,
                    user,
                    slot,
                    timestamp_ms,
                    tx_index,
                );
                let evs = spec_instruction_events(
                    instructions,
                    i,
                    keys,
                    meta,
                    signature,
                    user,
                    slot,
                    timestamp_ms,
                    tx_index,
                );
                let rest = spec_instruction_events(
                    instructions,
                    i + 1,
                    keys,
                    meta,
                    signature,
                    user,
                    slot,
                    timestamp_ms,
                    tx_index,
                );
                assert(evs == seq![ev0] + rest);
                assert forall|k: int| 0 <= k < evs.len() implies spec_event_well_formed(
                    #[trigger] evs[k],
                    tx_index,
                    slot,
                    timestamp_ms,
                ) by {
                    if k == 0 {
                        assert(evs[k] == ev0);
                    } else {
                        assert(evs[k] == rest[k - 1]);
                    }
                }
            },
            None => {},
        }
    }
}

proof fn lemma_transaction_events_well_formed(
    tx: TransactionModel,
    slot: u64,
    timestamp_ms: u64,
    tx_index: u32,
)
    ensures
        forall|k: int|
            0 <= k < spec_transaction_events(tx, slot, timestamp_ms, tx_index).len()
                ==> spec_event_well_formed(
                #[trigger] spec_transaction_events(tx, slot, timestamp_ms, tx_index)[k],
                tx_index,
                slot,
                timestamp_ms,
            ),
{
    match (tx.message_account_keys, tx.meta) {
        (Some(mk), Some(meta)) => {
            let keys = spec_resolved_account_keys(mk, Some(meta));
            if keys.len() > 0 {
                let signature = if tx.signatures.len() > 0 {
                    base58_of(tx.signatures[0])
                } else {
                    Seq::<char>::empty()
                };
                lemma_instruction_events_well_formed(
                    tx.instructions,
                    0,
                    keys,
                    meta,
                    signature,
                    base58_of(keys[0]),
                    slot,
                    timestamp_ms,
                    tx_index,
                );
            }
        },
        _ => {},
    }
}

proof fn lemma_block_events_from_well_formed(
    transactions: Seq<TransactionModel>,
    i: int,
    slot: u64,
    timestamp_ms: u64,
)
    requires
        0 <= i,
        transactions.len() <= 0x1_0000_0000,
    ensures
        forall|k: int|
            0 <= k < spec_block_events_from(transactions, i, slot, timestamp_ms).len() ==> {
                let ev = #[trigger] spec_block_events_from(transactions, i, slot, timestamp_ms)[k];
                &&& spec_event_ok(ev)
                &&& spec_platform_tag_known(ev.platform)
                &&& ev.slot == slot
                &&& ev.timestamp_ms == timestamp_ms
                &&& exists|t: int|
                    i <= t < transactions.len() && spec_eligible(#[trigger] transactions[t])
                        && ev.tx_index == t as u32
            },
    decreases transactions.len() - i,
{
    if 0 <= i < transactions.len() {
        lemma_block_events_from_well_formed(transactions, i + 1, slot, timestamp_ms);
        lemma_transaction_events_well_formed(transactions[i], slot, timestamp_ms, i as u32);
        let evs = spec_block_events_from(transactions, i, slot, timestamp_ms);
        let head = match transactions[i].meta {
            Some(m) => if !m.err {
                spec_transaction_events(transactions[i], slot, timestamp_ms, i as u32)
            } else {
                Seq::<SwapEventModel>::empty()
            },
            None => Seq::<SwapEventModel>::empty(),
        };
        let tail = spec_block_events_from(transactions, i + 1, slot, timestamp_ms);
        assert forall|k: int| 0 <= k < evs.len() implies {
            let ev = #[trigger] evs[k];
            &&& spec_event_ok(ev)
            &&& spec_platform_tag_known(ev.platform)
            &&& ev.slot == slot
            &&& ev.timestamp_ms == timestamp_ms
            &&& exists|t: int|
                i <= t < transactions.len() && spec_eligible(#[trigger] transactions[t])
                    && ev.tx_index == t as u32
        } by {
            if k < head.len() {
                assert(evs[k] == head[k]);
                assert(head.len() > 0 ==> spec_eligible(transactions[i]));
                assert(i <= i < transactions.len() && spec_eligible(transactions[i]) && evs[k].tx_index
                    == i as u32);
            } else {
                assert(evs[k] == tail[k - head.len()]);
            }
        }
    }
}

/// Every event a block decodes to is sound: it is a placeholder or carries
/// distinct mints with wrapped SOL never the base and a definite side
/// whenever wrapped SOL is the quote; its platform tag is one of the three
/// known tags; it carries the block's slot and timestamp; and its `tx_index`
/// is the index of a transaction that passed the block filter.
pub proof fn lemma_block_events_sound(b: BlockModel)
    requires
        b.transactions.len() <= 0x1_0000_0000,
    ensures
        forall|k: int|
            0 <= k < spec_block_events(b).len() ==> {
                let ev = #[trigger] spec_block_events(b)[k];
                &&& spec_event_ok(ev)
                &&& spec_platform_tag_known(ev.platform)
                &&& ev.slot == b.slot
                &&& ev.timestamp_ms == spec_timestamp_ms(b.block_time)
                &&& exists|t: int|
                    0 <= t < b.transactions.len() && spec_eligible(#[trigger] b.transactions[t])
                        && ev.tx_index == t as u32
            },
{
    lemma_block_events_from_well_formed(
        b.transactions,
        0,
        b.slot,
        spec_timestamp_ms(b.block_time),
    );
}

/// How many instructions from position `i` on match a swap method.
pub open spec fn spec_matched_count(
    instructions: Seq<InstructionModel>,
    i: int,
    keys: Seq<Seq<u8>>,
) -> nat
    decreases instructions.len() - i,
{
    if i < 0 || i >= instructions.len() {
        0
    } else {
        (if spec_match_instruction(keys, instructions[i]) is Some {
            1nat
        } else {
            0nat
        }) + spec_matched_count(instructions, i + 1, keys)
    }
}

/// How many of a transaction's instructions match a swap method, against its
/// effective account-key list.
pub open spec fn spec_transaction_matched_count(tx: TransactionModel) -> nat {
    match (tx.message_account_keys, tx.meta) {
        (Some(mk), Some(meta)) => spec_matched_count(
            tx.instructions,
            0,
            spec_resolved_account_keys(mk, Some(meta)),
        ),
        _ => 0,
    }
}

/// How many swap instructions match across the transactions from position
/// `i` on that pass the block filter.
pub open spec fn spec_block_matched_count_from(transactions: Seq<TransactionModel>, i: int) -> nat
    decreases transactions.len() - i,
{
    if i < 0 || i >= transactions.len() {
        0
    } else {
        (if spec_eligible(transactions[i]) {
            spec_transaction_matched_count(transactions[i])
        } else {
            0nat
        }) + spec_block_matched_count_from(transactions, i + 1)
    }
}

/// How many swap instructions match across a block's non-failed
/// transactions.
pub open spec fn spec_block_matched_count(b: BlockModel) -> nat {
    spec_block_matched_count_from(b.transactions, 0)
}

proof fn lemma_matched_count_empty_keys(
    instructions: Seq<InstructionModel>,
    i: int,
    keys: Seq<Seq<u8>>,
)
    requires
        keys.len() == 0,
    ensures
        spec_matched_count(instructions, i, keys) == 0,
    decreases instructions.len() - i,
{
    if 0 <= i < instructions.len() {
        lemma_matched_count_empty_keys(instructions, i + 1, keys);
    }
}

proof fn lemma_instruction_events_count(
    instructions: Seq<InstructionModel>,
    i: int,
    keys: Seq<Seq<u8>>,
    meta: TransactionMetaModel,
    signature: Seq<char>,
    user: Seq<char>,
    slot: u64,
    timestamp_ms: u64,
    tx_index: u32,
)
    ensures
        spec_instruction_events(
            instructions,
            i,
            keys,
            meta,
            signature,
            user,
            slot,
            timestamp_ms,
            tx_index,
        ).len() == spec_matched_count(instructions, i, keys),
    decreases instructions.len() - i,
{
    if 0 <= i < instructions.len() {
        lemma_instruction_events_count(
            instructions,
            i + 1,
            keys,
            meta,
            signature,
            user,
            slot,
            timestamp_ms,
            tx_index,
        );
    }
}

proof fn lemma_transaction_events_count(
    tx: TransactionModel,
    slot: u64,
    timestamp_ms: u64,
    tx_index: u32,
)
    ensures
        spec_transaction_events(tx, slot, timestamp_ms, tx_index).len()
            == spec_transaction_matched_count(tx),
{
    match (tx.message_account_keys, tx.meta) {
        (Some(mk), Some(meta)) => {
            let keys = spec_resolved_account_keys(mk, Some(meta));
            if keys.len() == 0 {
                lemma_matched_count_empty_keys(tx.instructions, 0, keys);
            } else {
                let signature = if tx.signatures.len() > 0 {
                    base58_of(tx.signatures[0])
                } else {
                    Seq::<char>::empty()
                };
                lemma_instruction_events_count(
                    tx.instructions,
                    0,
                    keys,
                    meta,
                    signature,
                    base58_of(keys[0]),
                    slot,
                    timestamp_ms,
                    tx_index,
                );
            }
        },
        _ => {},
    }
}

proof fn lemma_block_events_from_count(
    transactions: Seq<TransactionModel>,
    i: int,
    slot: u64,
    timestamp_ms: u64,
)
    ensures
        spec_block_events_from(transactions, i, slot, timestamp_ms).len()
            == spec_block_matched_count_from(transactions, i),
    decreases transactions.len() - i,
{
    if 0 <= i < transactions.len() {
        lemma_block_events_from_count(transactions, i + 1, slot, timestamp_ms);
        lemma_transaction_events_count(transactions[i], slot, timestamp_ms, i as u32);
    }
}

/// One event per matched swap instruction: the batch's length equals the
/// number of matched swap instructions across the block's non-failed
/// transactions, placeholders included.
pub proof fn lemma_one_event_per_matched_instruction(b: BlockModel)
    ensures
        spec_block_events(b).len() == spec_block_matched_count(b),
{
    lemma_block_events_from_count(b.transactions, 0, b.slot, spec_timestamp_ms(b.block_time));
}

proof fn lemma_block_events_from_ordered(
    transactions: Seq<TransactionModel>,
    i: int,
    slot: u64,
    timestamp_ms: u64,
)
    requires
        0 <= i,
        transactions.len() <= 0x1_0000_0000,
    ensures
        forall|k1: int, k2: int|
            0 <= k1 <= k2 < spec_block_events_from(transactions, i, slot, timestamp_ms).len()
                ==> (#[trigger] spec_block_events_from(transactions, i, slot, timestamp_ms)[k1]).tx_index
                <= (#[trigger] spec_block_events_from(transactions, i, slot, timestamp_ms)[k2]).tx_index,
    decreases transactions.len() - i,
{
    if 0 <= i < transactions.len() {
        lemma_block_events_from_ordered(transactions, i + 1, slot, timestamp_ms);
        lemma_block_events_from_well_formed(transactions, i + 1, slot, timestamp_ms);
        lemma_transaction_events_well_formed(transactions[i], slot, timestamp_ms, i as u32);
        let evs = spec_block_events_from(transactions, i, slot, timestamp_ms);
        let head = match transactions[i].meta {
            Some(m) => if !m.err {
                spec_transaction_events(transactions[i], slot, timestamp_ms, i as u32)
            } else {
                Seq::<SwapEventModel>::empty()
            },
            None => Seq::<SwapEventModel>::empty(),
        };
        let tail = spec_block_events_from(transactions, i + 1, slot, timestamp_ms);
        let hl = head.len() as int;
        assert forall|k1: int, k2: int| 0 <= k1 <= k2 < evs.len() implies (#[trigger] evs[k1]).tx_index
            <= (#[trigger] evs[k2]).tx_index by {
            if k2 < hl {
                assert(evs[k1] == head[k1]);
                assert(evs[k2] == head[k2]);
            } else if k1 < hl {
                assert(evs[k1] == head[k1]);
                assert(evs[k2] == tail[k2 - hl]);
                assert(exists|t: int|
                    i + 1 <= t < transactions.len() && spec_eligible(#[trigger] transactions[t])
                        && tail[k2 - hl].tx_index == t as u32);
                let t2 = choose|t: int|
                    i + 1 <= t < transactions.len() && spec_eligible(#[trigger] transactions[t])
                        && tail[k2 - hl].tx_index == t as u32;
                assert(evs[k1].tx_index == i as u32);
                assert(evs[k2].tx_index == t2 as u32);
            } else {
                assert(evs[k1] == tail[k1 - hl]);
                assert(evs[k2] == tail[k2 - hl]);
            }
        }
    }
}

/// Events come out ordered by transaction: along the batch, `tx_index` never
/// decreases, and within one transaction the events follow the flattened
/// instruction order by construction.
pub proof fn lemma_events_ordered_by_transaction(b: BlockModel)
    requires
        b.transactions.len() <= 0x1_0000_0000,
    ensures
        forall|k1: int, k2: int|
            0 <= k1 <= k2 < spec_block_events(b).len() ==> (#[trigger] spec_block_events(
                b,
            )[k1]).tx_index <= (#[trigger] spec_block_events(b)[k2]).tx_index,
{
    lemma_block_events_from_ordered(b.transactions, 0, b.slot, spec_timestamp_ms(b.block_time));
}

/// A transaction that fails the block filter — no metadata, or an error in
/// it — contributes no event: no emitted event carries its index.
pub proof fn lemma_failed_transaction_emits_nothing(b: BlockModel, t: int)
    requires
        b.transactions.len() <= 0x1_0000_0000,
        0 <= t < b.transactions.len(),
        !spec_eligible(b.transactions[t]),
    ensures
        forall|k: int|
            0 <= k < spec_block_events(b).len() ==> (#[trigger] spec_block_events(b)[k]).tx_index
                != t as u32,
{
    lemma_block_events_sound(b);
    assert forall|k: int| 0 <= k < spec_block_events(b).len() implies (#[trigger] spec_block_events(
        b,
    )[k]).tx_index != t as u32 by {
        let ev = spec_block_events(b)[k];
        let t2 = choose|t2: int|
            0 <= t2 < b.transactions.len() && spec_eligible(#[trigger] b.transactions[t2])
                && ev.tx_index == t2 as u32;
        assert(t2 != t);
    }
}

} // verus!
