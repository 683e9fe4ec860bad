//! The amount-and-mint resolver: for one matched swap instruction, determine
//! the traded mint pair, the raw amounts and decimals of both sides, and the
//! side relative to wrapped SOL.
//!
//! The primary strategy scans the inner transfers nested under the matched
//! instruction (its stack-depth subtree); the fallback is a balance-delta
//! analysis over the two declared user token accounts.

use vstd::prelude::*;

use crate::balances::{
    find_token_balance_change, spec_find_token_balance_change, spec_token_balance_mint_and_decimals,
    token_balance_mint_and_decimals,
};
use crate::constants::{spec_wsol_mint, wsol_mint};
use crate::encode::{base58_of, bs58_encode};
use crate::model::{
    Instruction, InstructionModel, ResolvedAmounts, ResolvedAmountsModel, Side, TransactionMeta,
    TransactionMetaModel,
};
use crate::transfer::{parse_transfer_amount_with_token2022, spec_parse_transfer, DecodedTransfer};
use crate::util::{key_at, seq_get};

verus! {

/// Orient a resolved (spent, received) pair relative to wrapped SOL: spending
/// wrapped SOL is a buy of the received asset, receiving wrapped SOL is a
/// sale of the spent asset, and a pair not involving wrapped SOL keeps the
/// received asset as base with side unknown. Whenever exactly one of the two
/// mints is wrapped SOL it becomes the quote mint.
pub open spec fn spec_classify(
    spent_mint: Seq<char>,
    received_mint: Seq<char>,
    spent_amount: u64,
    received_amount: u64,
    spent_decimals: u32,
    received_decimals: u32,
) -> ResolvedAmountsModel {
    if spent_mint == spec_wsol_mint() && received_mint != spec_wsol_mint() {
        ResolvedAmountsModel {
            base_mint: received_mint,
            quote_mint: spent_mint,
            base_amount: received_amount,
            quote_amount: spent_amount,
            base_decimals: received_decimals,
            quote_decimals: spent_decimals,
            side: Side::Buy,
        }
    } else if received_mint == spec_wsol_mint() && spent_mint != spec_wsol_mint() {
        ResolvedAmountsModel {
            base_mint: spent_mint,
            quote_mint: received_mint,
            base_amount: spent_amount,
            quote_amount: received_amount,
            base_decimals: spent_decimals,
            quote_decimals: received_decimals,
            side: Side::Sell,
        }
    } else {
        ResolvedAmountsModel {
            base_mint: received_mint,
            quote_mint: spent_mint,
            base_amount: received_amount,
            quote_amount: spent_amount,
            base_decimals: received_decimals,
            quote_decimals: spent_decimals,
            side: Side::Unknown,
        }
    }
}

/// Orient a resolved (spent, received) pair relative to wrapped SOL.
pub fn classify_swap(
    spent_mint: String,
    received_mint: String,
    spent_amount: u64,
    received_amount: u64,
    spent_decimals: u32,
    received_decimals: u32,
) -> (r: ResolvedAmounts)
    ensures
        r.deep_view() == spec_classify(
            spent_mint@,
            received_mint@,
            spent_amount,
            received_amount,
            spent_decimals,
            received_decimals,
        ),
{
    let wsol = wsol_mint();
    let spent_is_wsol = spent_mint == wsol;
    let received_is_wsol = received_mint == wsol;
    if spent_is_wsol && !received_is_wsol {
        ResolvedAmounts {
            base_mint: received_mint,
            quote_mint: spent_mint,
            base_amount: received_amount,
            quote_amount: spent_amount,
            base_decimals: received_decimals,
            quote_decimals: spent_decimals,
            side: Side::Buy,
        }
    } else if received_is_wsol && !spent_is_wsol {
        ResolvedAmounts {
            base_mint: spent_mint,
            quote_mint: received_mint,
            base_amount: spent_amount,
            quote_amount: received_amount,
            base_decimals: spent_decimals,
            quote_decimals: received_decimals,
            side: Side::Sell,
        }
    } else {
        ResolvedAmounts {
            base_mint: received_mint,
            quote_mint: spent_mint,
            base_amount: received_amount,
            quote_amount: spent_amount,
            base_decimals: received_decimals,
            quote_decimals: spent_decimals,
            side: Side::Unknown,
        }
    }
}

/// Accumulated totals of one inner-transfer scan: the amounts moved out of
/// the user's input account and into the user's output account, and the
/// first mint and decimals resolved for each.
#[verifier::ext_equal]
pub ghost struct ScanState {
    pub input_amount: u64,
    pub output_amount: u64,
    pub input_mint: Option<Seq<char>>,
    pub output_mint: Option<Seq<char>>,
    pub input_decimals: Option<u32>,
    pub output_decimals: Option<u32>,
}

/// The state a scan starts from: nothing moved, nothing resolved.
pub open spec fn spec_initial_scan_state() -> ScanState {
    ScanState {
        input_amount: 0,
        output_amount: 0,
        input_mint: None,
        output_mint: None,
        input_decimals: None,
        output_decimals: None,
    }
}

/// The mint for one side of a transfer: the base58 text of the mint account
/// named by a `TransferChecked`, when that index resolves; else whatever the
/// token balance records say of the user's account.
pub open spec fn spec_mint_from_transfer(
    meta: TransactionMetaModel,
    keys: Seq<Seq<u8>>,
    mint_idx: Option<u8>,
    account_index: u8,
) -> Option<Seq<char>> {
    let from_key = match mint_idx {
        Some(mi) => match seq_get(keys, mi as int) {
            Some(k) => Some(base58_of(k)),
            None => None,
        },
        None => None,
    };
    match from_key {
        Some(m) => Some(m),
        None => match spec_token_balance_mint_and_decimals(meta, account_index as u32) {
            Some(md) => Some(md.0),
            None => None,
        },
    }
}

/// The decimals for one side of a transfer: the `TransferChecked` decimals
/// byte when present, else whatever the token balance records say.
pub open spec fn spec_decimals_from_transfer(
    meta: TransactionMetaModel,
    decimals: Option<u8>,
    account_index: u8,
) -> Option<u32> {
    match decimals {
        Some(d) => Some(d as u32),
        None => match spec_token_balance_mint_and_decimals(meta, account_index as u32) {
            Some(md) => Some(md.1),
            None => None,
        },
    }
}

/// Fold one decoded transfer into the scan state: a transfer out of the
/// user's input account adds to the input total (saturating) and fills the
/// input mint and decimals if still unset; a transfer into the user's output
/// account does the same for the output side.
pub open spec fn spec_apply_transfer(
    st: ScanState,
    keys: Seq<Seq<u8>>,
    meta: TransactionMetaModel,
    input_account_idx: u8,
    output_account_idx: u8,
    t: DecodedTransfer,
) -> ScanState {
    let st1 = if t.0 == input_account_idx {
        ScanState {
            input_amount: st.input_amount.saturating_add(t.2),
            output_amount: st.output_amount,
            input_mint: if st.input_mint is None {
                spec_mint_from_transfer(meta, keys, t.3, input_account_idx)
            } else {
                st.input_mint
            },
            output_mint: st.output_mint,
            input_decimals: if st.input_decimals is None {
                spec_decimals_from_transfer(meta, t.4, input_account_idx)
            } else {
                st.input_decimals
            },
            output_decimals: st.output_decimals,
        }
    } else {
        st
    };
    if t.1 == output_account_idx {
        ScanState {
            input_amount: st1.input_amount,
            output_amount: st1.output_amount.saturating_add(t.2),
            input_mint: st1.input_mint,
            output_mint: if st1.output_mint is None {
                spec_mint_from_transfer(meta, keys, t.3, output_account_idx)
            } else {
                st1.output_mint
            },
            input_decimals: st1.input_decimals,
            output_decimals: if st1.output_decimals is None {
                spec_decimals_from_transfer(meta, t.4, output_account_idx)
            } else {
                st1.output_decimals
            },
        }
    } else {
        st1
    }
}

/// Scan the flattened stream from position `i`, folding every decoded token
/// transfer into the state, and stop at the first entry whose depth is not
/// greater than `swap_height` or whose depth is absent: the entries folded
/// are exactly the descendant subtree of the matched instruction. An entry
/// whose program id does not resolve is skipped, not a stop.
pub open spec fn spec_scan_inner_transfers(
    instructions: Seq<InstructionModel>,
    i: int,
    swap_height: u32,
    keys: Seq<Seq<u8>>,
    meta: TransactionMetaModel,
    input_account_idx: u8,
    output_account_idx: u8,
    st: ScanState,
) -> ScanState
    decreases instructions.len() - i,
{
    if i < 0 || i >= instructions.len() {
        st
    } else {
        match instructions[i].stack_height {
            None => st,
            Some(h) => if h <= swap_height {
                st
            } else {
                let st2 = match seq_get(keys, instructions[i].program_id_index as int) {
                    None => st,
                    Some(pid) => match spec_parse_transfer(
                        pid,
                        instructions[i].accounts,
                        instructions[i].data,
                    ) {
                        Some(t) => spec_apply_transfer(
                            st,
                            keys,
                            meta,
                            input_account_idx,
                            output_account_idx,
                            t,
                        ),
                        None => st,
                    },
                };
                spec_scan_inner_transfers(
                    instructions,
                    i + 1,
                    swap_height,
                    keys,
                    meta,
                    input_account_idx,
                    output_account_idx,
                    st2,
                )
            },
        }
    }
}

/// The primary resolution: scan the matched instruction's descendant
/// subtree for token transfers touching the declared user accounts, and
/// accept only a complete answer — both totals positive, both mints
/// resolved, non-empty and distinct — oriented by [`spec_classify`] with
/// the input side as spent and the output side as received. Anything less,
/// or a matched instruction without a recorded depth, resolves to nothing
/// here and is left to the fallback.
pub open spec fn spec_extract_by_inner_transfers(
    instructions: Seq<InstructionModel>,
    swap_instruction_index: int,
    meta: TransactionMetaModel,
    keys: Seq<Seq<u8>>,
    input_account_idx: Option<u8>,
    output_account_idx: Option<u8>,
) -> Option<ResolvedAmountsModel> {
    match (input_account_idx, output_account_idx) {
        (Some(in_idx), Some(out_idx)) => match seq_get(instructions, swap_instruction_index) {
            Some(swap_ins) => match swap_ins.stack_height {
                Some(swap_height) => {
                    let st = spec_scan_inner_transfers(
                        instructions,
                        swap_instruction_index + 1,
                        swap_height,
                        keys,
                        meta,
                        in_idx,
                        out_idx,
                        spec_initial_scan_state(),
                    );
                    if st.input_amount == 0 || st.output_amount == 0 {
                        None
                    } else {
                        match (st.input_mint, st.output_mint) {
                            (Some(im), Some(om)) => if im.len() == 0 || om.len() == 0 || im == om {
                                None
                            } else {
                                Some(
                                    spec_classify(
                                        im,
                                        om,
                                        st.input_amount,
                                        st.output_amount,
                                        match st.input_decimals {
                                            Some(d) => d,
                                            None => 0u32,
                                        },
                                        match st.output_decimals {
                                            Some(d) => d,
                                            None => 0u32,
                                        },
                                    ),
                                )
                            },
                            _ => None,
                        }
                    }
                },
                None => None,
            },
            None => None,
        },
        _ => None,
    }
}

/// The mint for one side of a transfer, per [`spec_mint_from_transfer`].
fn mint_from_transfer(
    meta: &TransactionMeta,
    account_keys: &Vec<Vec<u8>>,
    mint_idx: Option<u8>,
    account_index: u8,
) -> (r: Option<String>)
    ensures
        r.deep_view() == spec_mint_from_transfer(
            meta.deep_view(),
            account_keys.deep_view(),
            mint_idx,
            account_index,
        ),
{
    let from_key = match mint_idx {
        Some(mi) => match key_at(account_keys, mi as usize) {
            Some(k) => {
                proof {
                    assert(k.deep_view() =~= k@);
                }
                Some(bs58_encode(k.as_slice()))
            },
            None => None,
        },
        None => None,
    };
    match from_key {
        Some(m) => Some(m),
        None => match token_balance_mint_and_decimals(meta, account_index as u32) {
            Some(md) => Some(md.0),
            None => None,
        },
    }
}

/// The decimals for one side of a transfer, per
/// [`spec_decimals_from_transfer`].
fn decimals_from_transfer(meta: &TransactionMeta, decimals: Option<u8>, account_index: u8) -> (r:
    Option<u32>)
    ensures
        r == spec_decimals_from_transfer(meta.deep_view(), decimals, account_index),
{
    match decimals {
        Some(d) => Some(d as u32),
        None => match token_balance_mint_and_decimals(meta, account_index as u32) {
            Some(md) => Some(md.1),
            None => None,
        },
    }
}

/// Resolve a matched swap instruction from the token transfers nested under
/// it, per [`spec_extract_by_inner_transfers`].
pub fn extract_swap_amounts_by_inner_transfers(
    instructions: &Vec<Instruction>,
    swap_instruction_index: usize,
    meta: &TransactionMeta,
    account_keys: &Vec<Vec<u8>>,
    input_account_idx: Option<u8>,
    output_account_idx: Option<u8>,
) -> (r: Option<ResolvedAmounts>)
    ensures
        r.deep_view() == spec_extract_by_inner_transfers(
            instructions.deep_view(),
            swap_instruction_index as int,
            meta.deep_view(),
            account_keys.deep_view(),
            input_account_idx,
            output_account_idx,
        ),
{
    let in_idx = match input_account_idx {
        Some(v) => v,
        None => {
            return None;
        },
    };
    let out_idx = match output_account_idx {
        Some(v) => v,
        None => {
            return None;
        },
    };
    if swap_instruction_index >= instructions.len() {
        return None;
    }
    let swap_height = match instructions[swap_instruction_index].stack_height {
        Some(h) => h,
        None => {
            return None;
        },
    };

    let mut input_amount: u64 = 0;
    let mut output_amount: u64 = 0;
    let mut input_mint: Option<String> = None;
    let mut output_mint: Option<String> = None;
    let mut input_decimals: Option<u32> = None;
    let mut output_decimals: Option<u32> = None;

    let n = instructions.len();
    let mut i: usize = swap_instruction_index + 1;
    while i < n
        invariant_except_break
            swap_instruction_index < i <= n,
            n == instructions@.len(),
            spec_scan_inner_transfers(
                instructions.deep_view(),
                swap_instruction_index + 1,
                swap_height,
                account_keys.deep_view(),
                meta.deep_view(),
                in_idx,
                out_idx,
                spec_initial_scan_state(),
            ) == spec_scan_inner_transfers(
                instructions.deep_view(),
                i as int,
                swap_height,
                account_keys.deep_view(),
                meta.deep_view(),
                in_idx,
                out_idx,
                ScanState {
                    input_amount,
                    output_amount,
                    input_mint: input_mint.deep_view(),
                    output_mint: output_mint.deep_view(),
                    input_decimals,
                    output_decimals,
                },
            ),
        ensures
            spec_scan_inner_transfers(
                instructions.deep_view(),
                swap_instruction_index + 1,
                swap_height,
                account_keys.deep_view(),
                meta.deep_view(),
                in_idx,
                out_idx,
                spec_initial_scan_state(),
            ) == (ScanState {
                input_amount,
                output_amount,
                input_mint: input_mint.deep_view(),
                output_mint: output_mint.deep_view(),
                input_decimals,
                output_decimals,
            }),
        decreases n - i,
    {
        let ghost st_before = ScanState {
            input_amount,
            output_amount,
            input_mint: input_mint.deep_view(),
            output_mint: output_mint.deep_view(),
            input_decimals,
            output_decimals,
        };
        let ins = &instructions[i];
        proof {
            assert(instructions.deep_view()[i as int] == ins.deep_view());
        }
        let h = match ins.stack_height {
            Some(h) => h,
            None => {
                break ;
            },
        };
        if h <= swap_height {
            break ;
        }
        match key_at(account_keys, ins.program_id_index as usize) {
            None => {},
            Some(pid) => {
                proof {
                    assert(pid.deep_view() =~= pid@);
                }
                match parse_transfer_amount_with_token2022(
                    pid.as_slice(),
                    ins.accounts.as_slice(),
                    ins.data.as_slice(),
                ) {
                    None => {},
                    Some((source, destination, amount, mint_idx, decimals)) => {
                        if source == in_idx {
                            input_amount = input_amount.saturating_add(amount);
                            if input_mint.is_none() {
                                input_mint = mint_from_transfer(meta, account_keys, mint_idx, in_idx);
                            }
                            if input_decimals.is_none() {
                                input_decimals = decimals_from_transfer(meta, decimals, in_idx);
                            }
                        }
                        if destination == out_idx {
                            output_amount = output_amount.saturating_add(amount);
                            if output_mint.is_none() {
                                output_mint = mint_from_transfer(
                                    meta,
                                    account_keys,
                                    mint_idx,
                                    out_idx,
                                );
                            }
                            if output_decimals.is_none() {
                                output_decimals = decimals_from_transfer(meta, decimals, out_idx);
                            }
                        }
                        proof {
                            let st_after = ScanState {
                                input_amount,
                                output_amount,
                                input_mint: input_mint.deep_view(),
                                output_mint: output_mint.deep_view(),
                                input_decimals,
                                output_decimals,
                            };
                            assert(st_after =~~= spec_apply_transfer(
                                st_before,
                                account_keys.deep_view(),
                                meta.deep_view(),
                                in_idx,
                                out_idx,
                                (source, destination, amount, mint_idx, decimals),
                            ));
                        }
                    },
                }
            },
        }
        i = i + 1;
    }

    if input_amount == 0 || output_amount == 0 {
        return None;
    }
    let im = match input_mint {
        Some(m) => m,
        None => {
            return None;
        },
    };
    let om = match output_mint {
        Some(m) => m,
        None => {
            return None;
        },
    };
    let idec = match input_decimals {
        Some(d) => d,
        None => 0,
    };
    let odec = match output_decimals {
        Some(d) => d,
        None => 0,
    };
    if im.as_str().is_empty() || om.as_str().is_empty() || im == om {
        return None;
    }
    Some(classify_swap(im, om, input_amount, output_amount, idec, odec))
}

/// The fallback resolution: the post-minus-pre deltas of the two declared
/// user token accounts. The pair is adopted only when the input account's
/// delta is negative (the spent side) and the output account's delta is
/// positive (the received side); it is then oriented by [`spec_classify`].
pub open spec fn spec_extract_by_accounts(
    meta: TransactionMetaModel,
    input_account_idx: Option<u8>,
    output_account_idx: Option<u8>,
) -> Option<ResolvedAmountsModel> {
    match (input_account_idx, output_account_idx) {
        (Some(in_idx), Some(out_idx)) => {
            let input_change = spec_find_token_balance_change(
                meta.pre_token_balances,
                meta.post_token_balances,
                in_idx as u32,
            );
            let output_change = spec_find_token_balance_change(
                meta.pre_token_balances,
                meta.post_token_balances,
                out_idx as u32,
            );
            match (input_change, output_change) {
                (Some(ic), Some(oc)) => if ic.1 < 0 && oc.1 > 0 {
                    Some(
                        spec_classify(
                            ic.0,
                            oc.0,
                            (-(ic.1 as int)) as u64,
                            oc.1 as u64,
                            ic.2,
                            oc.2,
                        ),
                    )
                } else {
                    None
                },
                _ => None,
            }
        },
        _ => None,
    }
}

/// Resolve a matched swap instruction from the balance deltas of its two
/// declared user token accounts, per [`spec_extract_by_accounts`].
pub fn extract_swap_amounts_by_accounts(
    meta: &TransactionMeta,
    input_account_idx: Option<u8>,
    output_account_idx: Option<u8>,
) -> (r: Option<ResolvedAmounts>)
    ensures
        r.deep_view() == spec_extract_by_accounts(
            meta.deep_view(),
            input_account_idx,
            output_account_idx,
        ),
{
    let in_idx = match input_account_idx {
        Some(v) => v,
        None => {
            return None;
        },
    };
    let out_idx = match output_account_idx {
        Some(v) => v,
        None => {
            return None;
        },
    };
    let input_change = find_token_balance_change(
        &meta.pre_token_balances,
        &meta.post_token_balances,
        in_idx as u32,
    );
    let output_change = find_token_balance_change(
        &meta.pre_token_balances,
        &meta.post_token_balances,
        out_idx as u32,
    );
    let (in_mint, in_change, in_dec) = match input_change {
        Some(t) => t,
        None => {
            return None;
        },
    };
    let (out_mint, out_change, out_dec) = match output_change {
        Some(t) => t,
        None => {
            return None;
        },
    };
    if in_change < 0 && out_change > 0 {
        let spent_amount: u64 = (-(in_change as i128)) as u64;
        Some(classify_swap(in_mint, out_mint, spent_amount, out_change as u64, in_dec, out_dec))
    } else {
        None
    }
}

} // verus!
