use vstd::prelude::*;

verus! {

/// The largest page size that the upstream explorers serve.
pub const MAX_LIMIT: u32 = 50;

/// Page size used when a request names none.
pub const DEFAULT_LIMIT: u32 = 10;

/// The page a request with any `page` actually reads: pages start at 1.
pub open spec fn clamp_page(page: u32) -> u32 {
    if page < 1 { 1 } else { page }
}

/// The page size a request with any `limit` actually uses: within `[1, 50]`.
pub open spec fn clamp_limit(limit: u32) -> u32 {
    if limit < 1 {
        1
    } else if limit > MAX_LIMIT {
        MAX_LIMIT
    } else {
        limit
    }
}

/// Number of pages needed for `total` items, `limit` per page; an empty
/// listing still has one page.
pub open spec fn page_count(total: nat, limit: nat) -> nat
    recommends limit > 0,
{
    if total == 0 { 1 } else { ((total + limit - 1) / limit as int) as nat }
}

/// Pagination block of a Bitcoin address response.
#[derive(Debug, Clone, Copy, PartialEq, Eq)]
pub struct Pagination {
    pub total_transactions: u32,
    pub per_page: u32,
    pub current_page: u32,
    pub total_pages: u32,
}

/// Pagination block of an EVM address response: that upstream gives no total.
#[derive(Debug, Clone, Copy, PartialEq, Eq)]
pub struct EvmPagination {
    pub per_page: u32,
    pub current_page: u32,
}

/// Page number used when a request names none.
pub fn default_page() -> (r: u32)
    ensures
        r == 1,
{
    1
}

/// Page size used when a request names none.
pub fn default_limit() -> (r: u32)
    ensures
        r == DEFAULT_LIMIT,
{
    DEFAULT_LIMIT
}

/// Coerces a requested page number to at least 1.
pub fn effective_page(page: u32) -> (r: u32)
    ensures
        r == clamp_page(page),
{
    if page < 1 { 1 } else { page }
}

/// Clamps a requested page size into `[1, 50]`.
pub fn effective_limit(limit: u32) -> (r: u32)
    ensures
        r == clamp_limit(limit),
        1 <= r <= MAX_LIMIT,
{
    if limit < 1 {
        1
    } else if limit > MAX_LIMIT {
        MAX_LIMIT
    } else {
        limit
    }
}

/// Item offset of the first entry of `page` (counted from 1).
pub fn page_offset(page: u32, limit: u32) -> (r: u64)
    requires
        page >= 1,
    ensures
        r == (page - 1) * limit,
{
    let p: u64 = (page - 1) as u64;
    let l: u64 = limit as u64;
    assert(p * l <= (u32::MAX as u64) * (u32::MAX as u64)) by (nonlinear_arith)
        requires p <= u32::MAX, l <= u32::MAX;
    p * l
}

/// Number of pages for `total` items at `limit` per page: one page when
/// there are no items, else the ceiling of `total / limit`.
pub fn total_pages(total: u32, limit: u32) -> (r: u32)
    requires
        limit >= 1,
    ensures
        r == page_count(total as nat, limit as nat),
{
    if total == 0 {
        1
    } else {
        let q: u32 = total / limit;
        let rem: u32 = total % limit;
        proof {
            lemma_ceil_div(total as int, limit as int);
        }
        if rem == 0 { q } else { q + 1 }
    }
}

proof fn lemma_ceil_div(t: int, l: int)
    requires
        t >= 0,
        l >= 1,
    ensures
        (t + l - 1) / l == if t % l == 0 { t / l } else { t / l + 1 },
        t / l <= t,
        t >= 1 ==> (t + l - 1) / l <= t,
{
    assert(t == l * (t / l) + t % l) by (nonlinear_arith)
        requires l >= 1;
    assert(0 <= t % l < l) by (nonlinear_arith)
        requires l >= 1;
    let q = t / l;
    let r = t % l;
    if r == 0 {
        assert(t + l - 1 == l * q + (l - 1)) by (nonlinear_arith)
            requires t == l * q + r, r == 0;
        assert((l * q + (l - 1)) / l == q) by (nonlinear_arith)
            requires l >= 1, 0 <= l - 1 < l;
    } else {
        assert(t + l - 1 == l * (q + 1) + (r - 1)) by (nonlinear_arith)
            requires t == l * q + r;
        assert((l * (q + 1) + (r - 1)) / l == q + 1) by (nonlinear_arith)
            requires l >= 1, 0 <= r - 1 < l;
    }
    assert(t / l <= t) by (nonlinear_arith)
        requires t >= 0, l >= 1;
    if t >= 1 {
        assert((t + l - 1) / l <= t) by (nonlinear_arith)
            requires t >= 1, l >= 1;
    }
}

/// Pagination block of a Bitcoin response for a request of `page` and
/// `limit` over `total` transactions.
pub fn bitcoin_pagination(page: u32, limit: u32, total: u32) -> (r: Pagination)
    ensures
        r.total_transactions == total,
        r.per_page == clamp_limit(limit),
        r.current_page == clamp_page(page),
        r.total_pages == page_count(total as nat, clamp_limit(limit) as nat),
{
    let per_page = effective_limit(limit);
    Pagination {
        total_transactions: total,
        per_page,
        current_page: effective_page(page),
        total_pages: total_pages(total, per_page),
    }
}

/// Pagination block of an EVM response for a request of `page` and `limit`.
pub fn evm_pagination(page: u32, limit: u32) -> (r: EvmPagination)
    ensures
        r.per_page == clamp_limit(limit),
        r.current_page == clamp_page(page),
{
    EvmPagination { per_page: effective_limit(limit), current_page: effective_page(page) }
}

/// Any requested page size above 50 is served as exactly 50.
pub proof fn lemma_limit_capped(limit: u32)
    requires
        limit > MAX_LIMIT,
    ensures
        clamp_limit(limit) == MAX_LIMIT,
{
}

/// Any requested page number below 1 is served as exactly page 1.
pub proof fn lemma_page_floor(page: u32)
    requires
        page < 1,
    ensures
        clamp_page(page) == 1,
{
}

/// An empty listing has exactly one page, whatever the page size.
pub proof fn lemma_empty_single_page(limit: nat)
    requires
        limit >= 1,
    ensures
        page_count(0, limit) == 1,
{
}

/// For a non-empty listing the page count is the ceiling of items over page
/// size: every item fits in that many pages, and one page fewer is too few.
pub proof fn lemma_page_count_is_ceiling(total: nat, limit: nat)
    requires
        total >= 1,
        1 <= limit <= MAX_LIMIT,
    ensures
        page_count(total, limit) * limit >= total,
        (page_count(total, limit) - 1) * limit < total,
{
    let p = page_count(total, limit) as int;
    let t = total as int;
    let l = limit as int;
    lemma_ceil_div(t, l);
    assert(t == l * (t / l) + t % l) by (nonlinear_arith)
        requires l >= 1;
    assert(0 <= t % l < l) by (nonlinear_arith)
        requires l >= 1;
    if t % l == 0 {
        assert(p == t / l);
        assert(p * l == t) by (nonlinear_arith)
            requires t == l * (t / l) + t % l, t % l == 0, p == t / l;
        assert((p - 1) * l == t - l) by (nonlinear_arith)
            requires p * l == t;
    } else {
        assert(p == t / l + 1);
        assert(p * l == t - t % l + l) by (nonlinear_arith)
            requires t == l * (t / l) + t % l, p == t / l + 1;
        assert((p - 1) * l == t - t % l) by (nonlinear_arith)
            requires p * l == t - t % l + l;
    }
}

} // verus!
