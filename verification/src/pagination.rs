//! Multi-page result assembly.
//!
//! List endpoints answer with an envelope carrying page metadata and
//! the page's items. The continuation decision is exactly
//! `page * per_page < num_total`. The page-by-page loop lives with the
//! transport layer (each page's existence is only known after the
//! prior page returns); every decision it takes, and what the whole
//! run collects, is stated and proved here.

use vstd::arithmetic::div_mod::{lemma_fundamental_div_mod, lemma_mod_division_less_than_divisor};
use vstd::arithmetic::mul::lemma_mul_inequality;
use vstd::math::min;
use vstd::prelude::*;

use crate::error::{ErrorView, PlatzClientError};

verus! {

/// One page of a paginated list response: the page number (1-based),
/// the page size the server used, the page's items in order, and the
/// total item count across all pages.
#[derive(Debug, Clone)]
pub struct Paginated<T> {
    pub page: i64,
    pub per_page: i64,
    pub items: Vec<T>,
    pub num_total: i64,
}

/// The exact continuation predicate: more pages remain after page
/// `page` exactly when `page * per_page < num_total`.
pub open spec fn spec_has_more(page: int, per_page: int, num_total: int) -> bool {
    page * per_page < num_total
}

impl<T> Paginated<T> {
    /// Whether more pages remain after this one.
    pub fn has_more(&self) -> (b: bool)
        ensures
            b == spec_has_more(self.page as int, self.per_page as int, self.num_total as int),
    {
        proof {
            lemma_i64_product_fits(self.page as int, self.per_page as int);
        }
        (self.page as i128) * (self.per_page as i128) < (self.num_total as i128)
    }

    /// Whether this envelope is page `k` of the fixed dataset split
    /// into pages of `per_page` items.
    pub open spec fn is_page_of(&self, dataset: Seq<T>, per_page: int, k: int) -> bool {
        &&& self.page == k
        &&& self.per_page == per_page
        &&& self.num_total == dataset.len()
        &&& self.items@ == spec_page_items(dataset, per_page, k)
    }
}

proof fn lemma_i64_product_fits(a: int, b: int)
    requires
        i64::MIN <= a <= i64::MAX,
        i64::MIN <= b <= i64::MAX,
    ensures
        i128::MIN <= a * b <= i128::MAX,
{
    assert(i128::MIN <= a * b <= i128::MAX) by (nonlinear_arith)
        requires
            i64::MIN <= a <= i64::MAX,
            i64::MIN <= b <= i64::MAX,
    ;
}

/// One step of the pagination loop: appends the fetched page's items
/// to the accumulator, in order, and decides whether the loop fetches
/// the next page (and which one) or is exhausted.
pub fn collect_step<T>(items: &mut Vec<T>, page: Paginated<T>) -> (r: Option<i64>)
    requires
        page.page < i64::MAX,
    ensures
        final(items)@ == old(items)@ + page.items@,
        match r {
            Some(n) => {
                &&& spec_has_more(page.page as int, page.per_page as int, page.num_total as int)
                &&& n == page.page + 1
            },
            None => !spec_has_more(
                page.page as int,
                page.per_page as int,
                page.num_total as int,
            ),
        },
{
    let more = page.has_more();
    let next = page.page;
    let mut fetched = page.items;
    items.append(&mut fetched);
    if more {
        Some(next + 1)
    } else {
        None
    }
}

/// Reduces a completed collection to the single item it was expected
/// to hold: the item when there is exactly one, a structured failure
/// naming the actual count otherwise.
pub fn paginated_expect_one<T>(items: Vec<T>) -> (r: Result<T, PlatzClientError>)
    ensures
        items@.len() == 0 ==> r == Err::<T, PlatzClientError>(
            PlatzClientError::ExpectedOneGotNone,
        ),
        items@.len() == 1 ==> (r matches Ok(x) && x == items@[0]),
        items@.len() > 1 ==> (r matches Err(e) && e.deep_view() == ErrorView::ExpectedOneGotMany(
            items@.len() as int,
        )),
{
    let mut items = items;
    if items.len() == 0 {
        Err(PlatzClientError::ExpectedOneGotNone)
    } else if items.len() == 1 {
        Ok(items.remove(0))
    } else {
        Err(PlatzClientError::ExpectedOneGotMany(items.len()))
    }
}

/// The items the server serves on page `k` (1-based) of `dataset`
/// split into pages of `per_page` items: empty once the dataset is
/// exhausted.
pub open spec fn spec_page_items<T>(dataset: Seq<T>, per_page: int, k: int) -> Seq<T>
    recommends
        per_page >= 1,
        k >= 1,
{
    let lo = (k - 1) * per_page;
    let hi = min(k * per_page, dataset.len() as int);
    if 0 <= lo < dataset.len() as int {
        dataset.subrange(lo, hi)
    } else {
        Seq::empty()
    }
}

/// Everything collected by fetching pages `1` through `k` in order.
pub open spec fn spec_collect_upto<T>(dataset: Seq<T>, per_page: int, k: int) -> Seq<T>
    decreases k,
{
    if k <= 0 {
        Seq::empty()
    } else {
        spec_collect_upto(dataset, per_page, k - 1) + spec_page_items(dataset, per_page, k)
    }
}

/// How many page requests a full run issues: page 1 is always
/// fetched, and the run continues while the continuation predicate
/// holds, so a dataset of `total` items costs the ceiling of
/// `total / per_page` requests, and an empty dataset one request.
pub open spec fn spec_request_count(total: int, per_page: int) -> int
    recommends
        per_page >= 1,
        total >= 0,
{
    if total <= 0 {
        1
    } else {
        (total + per_page - 1) / per_page
    }
}

proof fn lemma_collect_upto_is_prefix<T>(dataset: Seq<T>, per_page: int, k: int)
    requires
        per_page >= 1,
        k >= 0,
    ensures
        spec_collect_upto(dataset, per_page, k) == dataset.take(
            min(k * per_page, dataset.len() as int),
        ),
    decreases k,
{
    let n = dataset.len() as int;
    if k == 0 {
        assert(dataset.take(0) =~= Seq::<T>::empty());
    } else {
        lemma_collect_upto_is_prefix(dataset, per_page, k - 1);
        let lo = (k - 1) * per_page;
        let hi = min(k * per_page, n);
        assert(lo + per_page == k * per_page) by (nonlinear_arith)
            requires
                lo == (k - 1) * per_page,
        ;
        assert(lo >= 0) by (nonlinear_arith)
            requires
                k >= 1,
                per_page >= 1,
                lo == (k - 1) * per_page,
        ;
        if lo >= n {
            // the dataset was exhausted before page k: nothing new
            assert(spec_page_items(dataset, per_page, k) =~= Seq::<T>::empty());
            assert(min(lo, n) == n && min(k * per_page, n) == n);
            assert(spec_collect_upto(dataset, per_page, k) =~= dataset.take(n));
        } else {
            assert(min(lo, n) == lo);
            assert(spec_page_items(dataset, per_page, k) == dataset.subrange(lo, hi));
            assert(dataset.take(lo) + dataset.subrange(lo, hi) =~= dataset.take(hi));
        }
    }
}

/// Law of pagination completeness: for a dataset of at least one item
/// served in pages of `per_page` items, a run that starts at page 1
/// and follows `collect_step`'s decisions fetches pages `1` through
/// `spec_request_count(total, per_page)` — the ceiling of
/// `total / per_page`, so exactly that many page requests — because
/// the continuation predicate holds of every earlier page and fails
/// of the last; and what it accumulates is exactly the dataset, in
/// page order.
pub proof fn lemma_pagination_collects_all<T>(dataset: Seq<T>, per_page: int)
    requires
        per_page >= 1,
        dataset.len() >= 1,
    ensures
        spec_collect_upto(dataset, per_page, spec_request_count(dataset.len() as int, per_page))
            == dataset,
        forall|k: int|
            1 <= k < spec_request_count(dataset.len() as int, per_page)
                ==> #[trigger] spec_has_more(k, per_page, dataset.len() as int),
        !spec_has_more(
            spec_request_count(dataset.len() as int, per_page),
            per_page,
            dataset.len() as int,
        ),
        spec_request_count(dataset.len() as int, per_page) >= 1,
{
    let n = dataset.len() as int;
    let kk = spec_request_count(n, per_page);
    lemma_fundamental_div_mod(n + per_page - 1, per_page);
    lemma_mod_division_less_than_divisor(n + per_page - 1, per_page);
    // kk * per_page lies in [n, n + per_page)
    assert(per_page * kk == (n + per_page - 1) - ((n + per_page - 1) % per_page));
    assert(per_page * kk >= n);
    assert(per_page * kk <= n + per_page - 1);
    assert(kk >= 1) by (nonlinear_arith)
        requires
            per_page >= 1,
            n >= 1,
            per_page * kk >= n,
            per_page * kk <= n + per_page - 1,
    ;
    assert(kk * per_page == per_page * kk) by (nonlinear_arith);
    assert(!spec_has_more(kk, per_page, n));
    assert((kk - 1) * per_page == per_page * kk - per_page) by (nonlinear_arith);
    assert((kk - 1) * per_page < n);
    assert forall|k: int| 1 <= k < kk implies #[trigger] spec_has_more(k, per_page, n) by {
        lemma_mul_inequality(k, kk - 1, per_page);
        assert(k * per_page <= (kk - 1) * per_page);
    }
    lemma_collect_upto_is_prefix(dataset, per_page, kk);
    assert(min(kk * per_page, n) == n);
    assert(dataset.take(n) =~= dataset);
}

} // verus!
