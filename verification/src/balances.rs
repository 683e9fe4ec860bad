//! Lookups over the pre- and post-transaction token balance records.

use vstd::prelude::*;

use crate::model::{TokenBalance, TokenBalanceModel, TransactionMeta, TransactionMetaModel};
use crate::util::{parse_u64_or_zero, spec_parse_u64_or_zero};

verus! {

/// The first balance record describing the given account, if any.
pub open spec fn spec_find_balance(
    balances: Seq<TokenBalanceModel>,
    account_index: u32,
) -> Option<TokenBalanceModel>
    decreases balances.len(),
{
    if balances.len() == 0 {
        None
    } else if balances[0].account_index == account_index {
        Some(balances[0])
    } else {
        spec_find_balance(balances.drop_first(), account_index)
    }
}

/// Find the first balance record for an account, front to back.
fn find_balance<'a>(balances: &'a Vec<TokenBalance>, account_index: u32) -> (r: Option<
    &'a TokenBalance,
>)
    ensures
        match r {
            Some(b) => spec_find_balance(balances.deep_view(), account_index) == Some(
                b.deep_view(),
            ),
            None => spec_find_balance(balances.deep_view(), account_index) is None,
        },
{
    let n = balances.len();
    let mut i: usize = 0;
    proof {
        assert(balances.deep_view().skip(0) =~= balances.deep_view());
    }
    while i < n
        invariant
            i <= n,
            n == balances@.len(),
            spec_find_balance(balances.deep_view(), account_index) == spec_find_balance(
                balances.deep_view().skip(i as int),
                account_index,
            ),
        decreases n - i,
    {
        if balances[i].account_index == account_index {
            proof {
                assert(balances.deep_view().skip(i as int)[0] == balances[i as int].deep_view());
            }
            return Some(&balances[i]);
        }
        proof {
            assert(balances.deep_view().skip(i as int).drop_first() =~= balances.deep_view().skip(
                i + 1,
            ));
            assert(balances.deep_view().skip(i as int)[0] == balances[i as int].deep_view());
        }
        i = i + 1;
    }
    None
}

/// The mint and decimals recorded for an account: from its post-transaction
/// balance record when one exists, else from its pre-transaction record.
pub open spec fn spec_token_balance_mint_and_decimals(
    meta: TransactionMetaModel,
    account_index: u32,
) -> Option<(Seq<char>, u32)> {
    match spec_find_balance(meta.post_token_balances, account_index) {
        Some(b) => Some((b.mint, b.decimals)),
        None => match spec_find_balance(meta.pre_token_balances, account_index) {
            Some(b) => Some((b.mint, b.decimals)),
            None => None,
        },
    }
}

/// The mint and decimals recorded for an account, post-transaction records
/// first.
pub fn token_balance_mint_and_decimals(meta: &TransactionMeta, account_index: u32) -> (r: Option<
    (String, u32),
>)
    ensures
        r.deep_view() == spec_token_balance_mint_and_decimals(meta.deep_view(), account_index),
{
    let b = match find_balance(&meta.post_token_balances, account_index) {
        Some(b) => b,
        None => match find_balance(&meta.pre_token_balances, account_index) {
            Some(b) => b,
            None => {
                return None;
            },
        },
    };
    Some((b.mint.clone(), b.decimals))
}

/// The post-minus-pre amount of an account, with the mint and decimals of
/// its post-transaction record: amounts are decimal strings read as zero
/// when unparsable, and the delta is their difference in wrapping signed
/// 64-bit arithmetic. An account with no post record, a zero delta and no
/// mint yields nothing.
pub open spec fn spec_find_token_balance_change(
    pre_balances: Seq<TokenBalanceModel>,
    post_balances: Seq<TokenBalanceModel>,
    account_index: u32,
) -> Option<(Seq<char>, i64, u32)> {
    let post = spec_find_balance(post_balances, account_index);
    let post_amount = match post {
        Some(b) => spec_parse_u64_or_zero(b.amount),
        None => 0u64,
    };
    let pre_amount = match spec_find_balance(pre_balances, account_index) {
        Some(b) => spec_parse_u64_or_zero(b.amount),
        None => 0u64,
    };
    let mint = match post {
        Some(b) => b.mint,
        None => Seq::<char>::empty(),
    };
    let decimals = match post {
        Some(b) => b.decimals,
        None => 0u32,
    };
    let change = (post_amount as i64).wrapping_sub(pre_amount as i64);
    if change == 0 && mint.len() == 0 {
        None
    } else {
        Some((mint, change, decimals))
    }
}

/// The balance delta of one account between the pre- and post-transaction
/// records, with its mint and decimals.
pub fn find_token_balance_change(
    pre_balances: &Vec<TokenBalance>,
    post_balances: &Vec<TokenBalance>,
    account_index: u32,
) -> (r: Option<(String, i64, u32)>)
    ensures
        r.deep_view() == spec_find_token_balance_change(
            pre_balances.deep_view(),
            post_balances.deep_view(),
            account_index,
        ),
{
    let post = find_balance(post_balances, account_index);
    let post_amount: u64 = match post {
        Some(b) => parse_u64_or_zero(b.amount.as_str()),
        None => 0,
    };
    let pre_amount: u64 = match find_balance(pre_balances, account_index) {
        Some(b) => parse_u64_or_zero(b.amount.as_str()),
        None => 0,
    };
    let (mint, decimals) = match post {
        Some(b) => (b.mint.clone(), b.decimals),
        None => (String::new(), 0),
    };
    let change = (post_amount as i64).wrapping_sub(pre_amount as i64);
    if change == 0 && mint.as_str().is_empty() {
        None
    } else {
        Some((mint, change, decimals))
    }
}

} // verus!
