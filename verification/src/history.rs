//! The history of an address: what to ask for, and which entries carry this
//! gateway's memo.

use crate::keys::{key_of_text, string_to_pub_key, AccountKey};
use crate::reads::ReadError;
use crate::text::{lowercase_text, text_eq, to_lowercase};
use vstd::prelude::*;
use vstd::string::*;

verus! {

/// The number of entries asked for where the request names none and wants
/// every transaction.
pub const ALL_TRANSACTIONS_LIMIT: usize = 20;

/// The number of entries asked for where the request names none and wants
/// this gateway's transactions.
pub const FUEGO_TRANSACTIONS_LIMIT: usize = 10;

/// The signatures to ask the network for.
#[derive(Clone, Copy, Debug, PartialEq, Eq)]
pub struct HistoryQuery {
    pub account: AccountKey,
    /// The most entries wanted, newest first.
    pub limit: usize,
}

/// The limit of a query: the one the request names, else the default.
pub open spec fn limit_or(limit: Option<usize>, default: usize) -> usize {
    match limit {
        Some(n) => n,
        None => default,
    }
}

/// What a history request comes to before the network is asked.
pub open spec fn history_query(address: Seq<char>, limit: Option<usize>, default: usize) -> Result<
    (Seq<u8>, usize),
    ReadError,
> {
    match key_of_text(address) {
        Ok(account) => Ok((account, limit_or(limit, default))),
        Err(_) => Err(ReadError::InvalidWalletAddress),
    }
}

/// The views of the two sides of a query.
pub open spec fn history_view(r: Result<HistoryQuery, ReadError>) -> Result<
    (Seq<u8>, usize),
    ReadError,
> {
    match r {
        Ok(query) => Ok((query.account@, query.limit)),
        Err(e) => Err(e),
    }
}

/// Whether `needle` stands somewhere in `hay`.
pub open spec fn contains_text(hay: Seq<char>, needle: Seq<char>) -> bool {
    exists|at: int| occurs_at(hay, needle, at)
}

/// Whether `needle` stands in `hay` at `at`.
pub open spec fn occurs_at(hay: Seq<char>, needle: Seq<char>, at: int) -> bool {
    0 <= at && at + needle.len() <= hay.len() && hay.subrange(at, at + needle.len()) == needle
}

/// Whether a memo is one of this gateway's: it holds `fuego` in any case.
pub open spec fn is_fuego(memo: Option<Seq<char>>) -> bool {
    match memo {
        Some(text) => contains_text(lowercase_text(text), "fuego"@),
        None => false,
    }
}

/// The view of an optional memo.
pub open spec fn memo_view(memo: Option<String>) -> Option<Seq<char>> {
    match memo {
        Some(text) => Some(text@),
        None => None,
    }
}

/// Whether `kept` lists, in rising order, exactly the places of the memos
/// that are this gateway's.
pub open spec fn keeps_fuego(memos: Seq<Option<String>>, kept: Seq<usize>) -> bool {
    &&& forall|k: int| 0 <= k < kept.len() ==> (#[trigger] kept[k]) < memos.len() && is_fuego(
        memo_view(memos[kept[k] as int]),
    )
    &&& forall|k: int, l: int| 0 <= k < l < kept.len() ==> kept[k] < kept[l]
    &&& forall|i: int|
        0 <= i < memos.len() && is_fuego(memo_view(#[trigger] memos[i])) ==> exists|k: int|
            0 <= k < kept.len() && kept[k] == i
}

fn history_of(address: &str, limit: Option<usize>, default: usize) -> (r: Result<
    HistoryQuery,
    ReadError,
>)
    ensures
        history_view(r) == history_query(address@, limit, default),
{
    match string_to_pub_key(address) {
        Ok(account) => Ok(
            HistoryQuery {
                account,
                limit: match limit {
                    Some(n) => n,
                    None => default,
                },
            },
        ),
        Err(_) => Err(ReadError::InvalidWalletAddress),
    }
}

/// What to ask the network for every transaction of an address: 20 entries
/// where the request names no limit.
pub fn get_all_transactions(address: &str, limit: Option<usize>) -> (r: Result<
    HistoryQuery,
    ReadError,
>)
    ensures
        history_view(r) == history_query(address@, limit, ALL_TRANSACTIONS_LIMIT),
{
    history_of(address, limit, ALL_TRANSACTIONS_LIMIT)
}

/// What to ask the network for this gateway's transactions of an address:
/// 10 entries where the request names no limit.
pub fn get_fuego_transactions(address: &str, limit: Option<usize>) -> (r: Result<
    HistoryQuery,
    ReadError,
>)
    ensures
        history_view(r) == history_query(address@, limit, FUEGO_TRANSACTIONS_LIMIT),
{
    history_of(address, limit, FUEGO_TRANSACTIONS_LIMIT)
}

/// Whether `needle` stands somewhere in `hay`.
pub fn text_contains(hay: &str, needle: &str) -> (found: bool)
    ensures
        found == contains_text(hay@, needle@),
{
    let n = hay.unicode_len();
    let m = needle.unicode_len();
    if m > n {
        return false;
    }
    let last = n - m;
    let mut at: usize = 0;
    loop
        invariant
            n == hay@.len(),
            m == needle@.len(),
            last == n - m,
            at <= last,
            forall|j: int| 0 <= j < at ==> !occurs_at(hay@, needle@, j),
        decreases last - at,
    {
        if text_eq(hay.substring_char(at, at + m), needle) {
            assert(occurs_at(hay@, needle@, at as int));
            return true;
        }
        if at == last {
            return false;
        }
        at = at + 1;
    }
}

/// Whether a memo is one of this gateway's.
pub fn is_fuego_memo(memo: &Option<String>) -> (mine: bool)
    ensures
        mine == is_fuego(memo_view(*memo)),
{
    match memo {
        Some(text) => {
            let lower = to_lowercase(text.as_str());
            text_contains(lower.as_str(), "fuego")
        },
        None => false,
    }
}

/// Picks this gateway's entries out of a history: the places, in order, of
/// the memos that hold `fuego`.
pub fn select_fuego(memos: &Vec<Option<String>>) -> (kept: Vec<usize>)
    ensures
        keeps_fuego(memos@, kept@),
{
    let mut kept: Vec<usize> = Vec::new();
    let mut i: usize = 0;
    while i < memos.len()
        invariant
            i <= memos@.len(),
            forall|k: int| 0 <= k < kept@.len() ==> (#[trigger] kept@[k]) < i && is_fuego(
                memo_view(memos@[kept@[k] as int]),
            ),
            forall|k: int, l: int| 0 <= k < l < kept@.len() ==> kept@[k] < kept@[l],
            forall|j: int|
                0 <= j < i && is_fuego(memo_view(#[trigger] memos@[j])) ==> exists|k: int|
                    0 <= k < kept@.len() && kept@[k] == j,
        decreases memos@.len() - i,
    {
        if is_fuego_memo(&memos[i]) {
            let ghost before = kept@;
            kept.push(i);
            assert forall|j: int| 0 <= j < i + 1 && is_fuego(memo_view(#[trigger] memos@[j])) implies exists|
                k: int,
            | 0 <= k < kept@.len() && kept@[k] == j by {
                if j < i {
                    let k = choose|k: int| 0 <= k < before.len() && before[k] == j;
                    assert(kept@[k] == j);
                } else {
                    assert(kept@[kept@.len() - 1] == j);
                }
            }
        }
        i = i + 1;
    }
    kept
}

} // verus!
