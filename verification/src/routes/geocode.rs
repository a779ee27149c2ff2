//! Place search through Nominatim: query rules and the request spacing that
//! its usage policy asks for.
use vstd::prelude::*;
use crate::error::{AppError, ErrorStatus};
use crate::text::{trim, trimmed};

verus! {

/// A search request: the text and an optional number of results.
#[derive(Debug)]
pub struct GeocodeQuery {
    pub q: String,
    pub limit: Option<u32>,
}

/// The longest accepted search text, in characters.
pub const MAX_QUERY_CHARS: usize = 200;

/// The rules for a search: a trimmed text that is not empty and has at most
/// 200 characters; the number of results defaults to 5 and is clamped to
/// `1..=8`.
pub open spec fn query_spec(q: Seq<char>, limit: Option<u32>) -> Result<(Seq<char>, u32), Seq<char>> {
    let t = trimmed(q);
    let l = match limit {
        Some(v) => v,
        None => 5u32,
    };
    if t.len() == 0 {
        Err("请输入搜索关键词"@)
    } else if t.len() > MAX_QUERY_CHARS {
        Err("搜索关键词过长"@)
    } else {
        Ok((t, if l < 1 { 1u32 } else if l > 8 { 8u32 } else { l }))
    }
}

/// A search as accepted: the trimmed text and the number of results.
#[derive(Debug)]
pub struct SearchInput {
    pub query: String,
    pub limit: u32,
}

/// Accepts or refuses a search request.
pub fn check_query(q: &GeocodeQuery) -> (r: Result<SearchInput, AppError>)
    ensures
        r matches Ok(s) ==> query_spec(q.q@, q.limit) == Ok::<(Seq<char>, u32), Seq<char>>((s.query@, s.limit)),
        r matches Err(e) ==> e.status == ErrorStatus::BadRequest && query_spec(q.q@, q.limit) == Err::<(Seq<char>, u32), Seq<char>>(e.message@),
        r matches Ok(s) ==> s.query@ == trimmed(q.q@),
        r matches Ok(s) ==> (q.limit matches Some(l) ==> (1 <= l && l <= 8 ==> s.limit == l)),
        r matches Ok(s) ==> (q.limit is None ==> s.limit == 5),
        r matches Ok(s) ==> (q.limit matches Some(l) ==> (l > 8 ==> s.limit == 8)),
        r matches Ok(s) ==> (q.limit matches Some(l) ==> (l < 1 ==> s.limit == 1)),
{
    let t = trim(q.q.as_str());
    let n = t.unicode_len();
    if n == 0 {
        return Err(AppError::bad_request("请输入搜索关键词"));
    }
    if n > MAX_QUERY_CHARS {
        return Err(AppError::bad_request("搜索关键词过长"));
    }
    let l = match q.limit {
        Some(v) => v,
        None => 5,
    };
    let limit = if l < 1 {
        1
    } else if l > 8 {
        8
    } else {
        l
    };
    Ok(SearchInput { query: t.to_owned(), limit })
}

/// Every search result count lies in `1..=8`.
pub proof fn lemma_limit_bounds(q: Seq<char>, limit: Option<u32>)
    ensures
        query_spec(q, limit) matches Ok((_, l)) ==> 1 <= l <= 8,
{
}

/// A search keeps a requested result count that lies in `1..=8`, takes 5
/// when none is requested, and otherwise takes the nearer bound; the text is
/// the request's, trimmed, and any text of 1 to 200 characters after trimming
/// is accepted.
pub proof fn lemma_limit_kept_in_range(q: Seq<char>, limit: Option<u32>)
    ensures
        query_spec(q, limit) matches Ok((t, l)) ==> {
            &&& t == trimmed(q)
            &&& (limit matches Some(v) ==> (1 <= v && v <= 8 ==> l == v))
            &&& (limit is None ==> l == 5)
            &&& (limit matches Some(v) ==> (v > 8 ==> l == 8))
            &&& (limit matches Some(v) ==> (v < 1 ==> l == 1))
        },
        0 < trimmed(q).len() <= 200 ==> query_spec(q, limit) is Ok,
{
}

/// The least spacing between two searches, in nanoseconds (1.1 s).
pub const MIN_INTERVAL_NANOS: u128 = 1_100_000_000;

/// How long a search waits, given the time since the previous one (none
/// before the first): the rest of the spacing, or nothing.
pub open spec fn wait_spec(elapsed: Option<u128>) -> u128 {
    match elapsed {
        Some(e) => if e < MIN_INTERVAL_NANOS {
            (MIN_INTERVAL_NANOS - e) as u128
        } else {
            0
        },
        None => 0,
    }
}

/// The wait before a search, in nanoseconds.
pub fn wait_nanos(elapsed: Option<u128>) -> (w: u128)
    ensures
        w == wait_spec(elapsed),
{
    match elapsed {
        Some(e) => if e < MIN_INTERVAL_NANOS {
            MIN_INTERVAL_NANOS - e
        } else {
            0
        },
        None => 0,
    }
}

/// After waiting, at least the spacing has passed since the previous search,
/// and no search waits longer than the spacing.
pub proof fn lemma_wait_keeps_spacing(elapsed: Option<u128>)
    ensures
        wait_spec(elapsed) <= MIN_INTERVAL_NANOS,
        elapsed matches Some(e) ==> e + wait_spec(elapsed) >= MIN_INTERVAL_NANOS,
{
}

} // verus!
