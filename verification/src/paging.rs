//! Pagination of flashcard listings: default page parameters, the offset a
//! page starts at, and the one-extra-row trick that detects a further page.

use vstd::prelude::*;

use crate::models::Flashcard;

verus! {

/// Page parameters as a request may carry them.
#[derive(Debug, Clone)]
pub struct PaginationQuery {
    pub page: Option<u32>,
    pub limit: Option<u32>,
}

/// The page and page size a request asks for: the first page of twenty
/// unless it says otherwise.
pub fn page_params(q: &PaginationQuery) -> (r: (u32, u32))
    ensures
        r.0 == q.page.unwrap_or(0u32),
        r.1 == q.limit.unwrap_or(20u32),
{
    let page = match q.page {
        Some(p) => p,
        None => 0,
    };
    let limit = match q.limit {
        Some(l) => l,
        None => 20,
    };
    (page, limit)
}

/// The row a page starts at.
pub fn page_offset(page: u32, limit: u32) -> (r: u64)
    ensures
        r == page as int * limit as int,
{
    proof {
        assert(page as int * limit as int <= 0xffff_ffff * 0xffff_ffff) by (nonlinear_arith)
            requires
                page as int <= 0xffff_ffff,
                limit as int <= 0xffff_ffff,
        ;
    }
    (page as u64) * (limit as u64)
}

/// Split a listing fetched with one extra row: when more than `limit` rows
/// came back, a further page exists and the extra row is dropped.
pub fn split_page(rows: Vec<Flashcard>, limit: u32) -> (r: (Vec<Flashcard>, bool))
    ensures
        r.1 == (rows@.len() > limit),
        r.0@ == if rows@.len() > limit {
            rows@.drop_last()
        } else {
            rows@
        },
{
    let mut rows = rows;
    if rows.len() > limit as usize {
        rows.pop();
        (rows, true)
    } else {
        (rows, false)
    }
}

} // verus!
