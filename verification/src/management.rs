//! The capability contracts: what it is to manage a resource over a backend,
//! to be a search, and to be the result of one.

use crate::error::Error;
use vstd::arithmetic::div_mod::{
    lemma_div_pos_is_pos, lemma_fundamental_div_mod, lemma_mod_pos_bound,
};
use vstd::prelude::*;

verus! {

/// The page that a search asks for when it names none, or names page zero:
/// pages are counted from one.
pub const DEFAULT_PAGE: usize = 1;

/// The number of records on a page when a search names none, or names zero.
pub const DEFAULT_PER_PAGE: usize = 25;

/// How many pages of `size` items it takes to hold `count` items: the
/// quotient, rounded up.
pub open spec fn pages_for(count: nat, size: nat) -> nat
    recommends
        size > 0,
{
    if count % size == 0 {
        count / size
    } else {
        count / size + 1
    }
}

/// The items of page `page` (counted from zero) when `items` is cut into
/// pages of `size`: none where the page lies beyond the last one.
pub open spec fn page_of<T>(items: Seq<T>, size: nat, page: nat) -> Seq<T> {
    let start = if page * size <= items.len() {
        page * size
    } else {
        items.len()
    };
    let end = if start + size <= items.len() {
        start + size
    } else {
        items.len()
    };
    items.subrange(start as int, end as int)
}

/// The number of pages that `num_items` items fill at `page_size` a page.
pub fn page_count(num_items: u64, page_size: u64) -> (pages: u64)
    requires
        page_size > 0,
    ensures
        pages == pages_for(num_items as nat, page_size as nat),
{
    if num_items % page_size > 0 {
        assert(num_items / page_size < u64::MAX) by {
            // a remainder leaves the quotient below the dividend
            assert(num_items / page_size <= num_items) by (nonlinear_arith)
                requires
                    page_size > 0,
            ;
            if num_items / page_size == num_items {
                assert(num_items % page_size == 0) by (nonlinear_arith)
                    requires
                        page_size > 0,
                        num_items / page_size == num_items,
                        0 <= num_items,
                ;
            }
        }
        num_items / page_size + 1
    } else {
        num_items / page_size
    }
}

/// Create, read, update and delete over a backend `B`, for one kind of
/// resource. The backend is handed to each operation, so that one manager
/// serves any connection or transaction that is a `B`.
///
/// What an operation returns depends on what the backend answers. A manager
/// says for each operation, in a predicate of its own, which results the
/// operation may return over a given backend; the operation promises one of
/// them.
pub trait Manageable<B>: Sync + Send {
    /// The identifier, as callers supply it.
    type Id: View;

    /// A record of the resource.
    type Data;

    /// What a read returns.
    type Result;

    /// How an operation fails.
    type Failure: Error;

    /// Whether `r` is what `create` may return for `data` over `backend`.
    spec fn created(
        &self,
        backend: &B,
        data: Self::Data,
        r: Result<Self::Data, Self::Failure>,
    ) -> bool;

    /// Whether `r` is what `read` may return over `backend` for a search
    /// that asks for `criteria`.
    spec fn searched(
        &self,
        backend: &B,
        criteria: Criteria<<Self::Id as View>::V>,
        r: Result<Self::Result, Self::Failure>,
    ) -> bool;

    /// Whether `r` is what `update` may return for `id` and `data` over
    /// `backend`.
    spec fn updated(
        &self,
        backend: &B,
        id: Self::Id,
        data: Self::Data,
        r: Result<Self::Data, Self::Failure>,
    ) -> bool;

    /// Whether `r` is what `delete` may return for `id` over `backend`.
    spec fn deleted(&self, backend: &B, id: Self::Id, r: Result<(), Self::Failure>) -> bool;

    /// Stores a new record made from `data`, under an identifier that the
    /// manager assigns, and returns the record as stored.
    fn create(&self, data: Self::Data, backend: &B) -> (r: Result<Self::Data, Self::Failure>)
        ensures
            self.created(backend, data, r),
    ;

    /// Returns the page of records that `search_opt` selects. No match is no
    /// failure: the result then holds no record.
    fn read<S: Searchable<Id = Self::Id>>(&self, search_opt: S, backend: &B) -> (r: Result<
        Self::Result,
        Self::Failure,
    >)
        ensures
            self.searched(backend, criteria_of(search_opt), r),
    ;

    /// Replaces the fields of the record that has `id` by those of `data`
    /// and returns the record as stored.
    fn update(&self, id: Self::Id, data: Self::Data, backend: &B) -> (r: Result<
        Self::Data,
        Self::Failure,
    >)
        ensures
            self.updated(backend, id, data, r),
    ;

    /// Removes the record that has `id`.
    fn delete(&self, id: Self::Id, backend: &B) -> (r: Result<(), Self::Failure>)
        ensures
            self.deleted(backend, id, r),
    ;
}

/// A search: which records, and which page of them.
pub trait Searchable: Sync + Send {
    type Id: View;

    type Date;

    /// The one identifier the search is restricted to, if any.
    spec fn id(&self) -> Option<<Self::Id as View>::V>;

    /// The text that one of a record's fields must equal, if any.
    spec fn pattern(&self) -> Option<Seq<char>>;

    /// The two ends of the range of dates, if both are given.
    spec fn date_range(&self) -> Option<(Self::Date, Self::Date)>;

    /// The page asked for, counted from one.
    spec fn page(&self) -> nat;

    /// The number of records on a page.
    spec fn per_page(&self) -> nat;

    fn get_id(&self) -> (id: Option<Self::Id>)
        ensures
            id is Some <==> self.id() is Some,
            id matches Some(i) ==> self.id() == Some(i@),
    ;

    fn get_pattern(&self) -> (pattern: Option<String>)
        ensures
            pattern is Some <==> self.pattern() is Some,
            pattern matches Some(p) ==> self.pattern() == Some(p@),
    ;

    fn get_date_range(&self) -> (range: Option<(Self::Date, Self::Date)>)
        ensures
            range == self.date_range(),
    ;

    fn get_page(&self) -> (page: usize)
        ensures
            page == self.page(),
            page >= 1,
    ;

    fn get_per_page(&self) -> (per_page: usize)
        ensures
            per_page == self.per_page(),
            per_page >= 1,
    ;
}

/// What a search asks for: the one identifier to look at, if any; the text
/// that a field must equal, if any; the page, counted from one; and the
/// number of records on a page.
pub struct Criteria<I> {
    pub id: Option<I>,
    pub pattern: Option<Seq<char>>,
    pub page: nat,
    pub per_page: nat,
}

/// What `search` asks for.
pub open spec fn criteria_of<S: Searchable>(search: S) -> Criteria<<S::Id as View>::V> {
    Criteria {
        id: search.id(),
        pattern: search.pattern(),
        page: search.page(),
        per_page: search.per_page(),
    }
}

/// One page of what a search found, and how many pages there are.
pub trait SearchResult: Sync + Send {
    type Result;

    spec fn num_pages(&self) -> nat;

    /// The records of the page, in the order in which the backend gave them.
    spec fn result(&self) -> Seq<Self::Result>;

    fn get_num_pages(&self) -> (pages: usize)
        ensures
            pages == self.num_pages(),
    ;

    fn get_result(&self) -> (items: Vec<Self::Result>)
        ensures
            items@ == self.result(),
    ;
}

/// The pages cover the items, and no fewer pages would: the count lies above
/// what one page less holds and within what the pages hold.
pub proof fn lemma_pages_cover(count: nat, size: nat)
    requires
        size > 0,
    ensures
        pages_for(count, size) * size >= count,
        count > 0 ==> (pages_for(count, size) - 1) * size < count,
        count == 0 <==> pages_for(count, size) == 0,
{
    let q = count as int / size as int;
    let r = count as int % size as int;
    lemma_fundamental_div_mod(count as int, size as int);
    lemma_mod_pos_bound(count as int, size as int);
    lemma_div_pos_is_pos(count as int, size as int);
    assert(count == size * q + r);
    assert((q + 1) * size == size * q + size) by (nonlinear_arith);
    assert(q * size == size * q) by (nonlinear_arith);
    assert((q - 1) * size == size * q - size) by (nonlinear_arith);
    if q == 0 {
        assert(size * q == 0) by (nonlinear_arith)
            requires
                q == 0,
        {
        }
    }
}

/// One item fills one page, whatever the size of a page.
pub proof fn lemma_one_item_fills_one_page(size: nat)
    requires
        size > 0,
    ensures
        pages_for(1, size) == 1,
{
    if size == 1 {
        assert(1nat % size == 0 && 1nat / size == 1);
    } else {
        assert(1nat % size == 1 && 1nat / size == 0) by (nonlinear_arith)
            requires
                size >= 2,
        ;
    }
}

/// Every page beyond the last is empty.
pub proof fn lemma_page_beyond_count_is_empty<T>(items: Seq<T>, size: nat, page: nat)
    requires
        size > 0,
        page >= pages_for(items.len(), size),
    ensures
        page_of(items, size, page) == Seq::<T>::empty(),
{
    let count = items.len();
    lemma_pages_cover(count, size);
    assert(page * size >= count) by (nonlinear_arith)
        requires
            size > 0,
            page >= pages_for(count, size),
            pages_for(count, size) * size >= count,
    {
    }
    assert(page_of(items, size, page) =~= Seq::<T>::empty());
}

/// The pages before the last are full, and the last holds what is left.
pub proof fn lemma_page_length<T>(items: Seq<T>, size: nat, page: nat)
    requires
        size > 0,
        page < pages_for(items.len(), size),
    ensures
        page + 1 < pages_for(items.len(), size) ==> page_of(items, size, page).len() == size,
        page + 1 == pages_for(items.len(), size) ==> page_of(items, size, page).len()
            == items.len() - page * size,
        0 < page_of(items, size, page).len() <= size,
{
    let count = items.len();
    let pages = pages_for(count, size);
    lemma_pages_cover(count, size);
    assert(page * size <= (pages - 1) * size) by (nonlinear_arith)
        requires
            page <= pages - 1,
            size > 0,
    {
    }
    if page + 1 < pages {
        assert((page + 1) * size <= (pages - 1) * size) by (nonlinear_arith)
            requires
                page + 1 <= pages - 1,
                size > 0,
        {
        }
        assert((page + 1) * size == page * size + size) by (nonlinear_arith);
    } else {
        assert(pages * size == page * size + size) by (nonlinear_arith)
            requires
                pages == page + 1,
        {
        }
    }
}

} // verus!
