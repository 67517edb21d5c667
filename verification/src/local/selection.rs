//! What a read asks of the backend: which records, and which page of them.

use crate::entity::{Model, Row};
use crate::management::{lemma_page_beyond_count_is_empty, page_of, pages_for};
use vstd::prelude::*;

verus! {

/// The records that a read is after, and the page of them that it wants.
pub struct Selection {
    /// The one identifier to look at, if the search names one.
    pub id: Option<u128>,
    /// The text that the first name, the last name or the email must equal,
    /// if the search gives one.
    pub pattern: Option<String>,
    /// The number of records on a page: at least one.
    pub page_size: u64,
    /// The page wanted, counted from zero.
    pub page: u64,
}

impl Selection {
    /// A selection is well formed when its pages hold at least one record.
    pub open spec fn wf(&self) -> bool {
        self.page_size >= 1
    }

    /// Whether the selection takes a record with these fields.
    pub open spec fn admits(&self, row: Row) -> bool {
        &&& self.id matches Some(id) ==> row.id == id
        &&& self.pattern matches Some(pattern) ==> {
            ||| row.first_name == pattern@
            ||| row.last_name == pattern@
            ||| row.email == pattern@
        }
    }

    /// The records of `rows` that the selection takes, in their order.
    pub open spec fn matching(&self, rows: Seq<Row>) -> Seq<Row> {
        rows.filter(|row: Row| self.admits(row))
    }

    /// The number of pages that the selected records of `rows` fill.
    pub open spec fn num_pages(&self, rows: Seq<Row>) -> nat {
        pages_for(self.matching(rows).len(), self.page_size as nat)
    }

    /// The page of the selected records of `rows` that the selection wants.
    pub open spec fn wanted(&self, rows: Seq<Row>) -> Seq<Row> {
        page_of(self.matching(rows), self.page_size as nat, self.page as nat)
    }

    /// Whether the first record of the wanted page has a place that a `u64`
    /// can count to. Where it has none, no backend holds the page.
    pub open spec fn within_reach(&self) -> bool {
        self.page_size * self.page <= u64::MAX
    }

    /// Computes `admits` for a stored record.
    pub fn takes(&self, record: &Model) -> (taken: bool)
        ensures
            taken == self.admits(record@),
    {
        let by_id = match self.id {
            Some(id) => record.id == id,
            None => true,
        };
        let by_pattern = match &self.pattern {
            Some(pattern) => record.first_name == *pattern || record.last_name == *pattern
                || record.email == *pattern,
            None => true,
        };
        by_id && by_pattern
    }

    /// Computes `within_reach`.
    pub fn is_within_reach(&self) -> (reach: bool)
        ensures
            reach == self.within_reach(),
    {
        self.page_size.checked_mul(self.page).is_some()
    }
}

/// A page past the last one holds no record.
pub proof fn lemma_page_past_the_last_is_empty(selection: Selection, rows: Seq<Row>)
    requires
        selection.wf(),
        selection.page >= selection.num_pages(rows),
    ensures
        selection.wanted(rows) == Seq::<Row>::empty(),
{
    lemma_page_beyond_count_is_empty(
        selection.matching(rows),
        selection.page_size as nat,
        selection.page as nat,
    );
}

/// A store that holds nothing fills no page, whatever is selected.
pub proof fn lemma_empty_store_has_no_page(selection: Selection)
    requires
        selection.wf(),
    ensures
        selection.num_pages(Seq::<Row>::empty()) == 0,
        selection.wanted(Seq::<Row>::empty()) == Seq::<Row>::empty(),
{
    reveal(Seq::filter);
    assert(selection.matching(Seq::<Row>::empty()) == Seq::<Row>::empty());
    assert(0nat % (selection.page_size as nat) == 0) by (nonlinear_arith)
        requires
            selection.page_size >= 1,
    ;
    assert(0nat / (selection.page_size as nat) == 0) by (nonlinear_arith)
        requires
            selection.page_size >= 1,
    ;
}

/// A page whose first record would have no place that a `u64` counts to
/// lies past the last page of any store that a `u64` can count.
pub proof fn lemma_page_out_of_reach_is_empty(selection: Selection, rows: Seq<Row>)
    requires
        selection.wf(),
        !selection.within_reach(),
        rows.len() <= u64::MAX,
    ensures
        selection.wanted(rows) == Seq::<Row>::empty(),
{
    rows.lemma_filter_len(|row: Row| selection.admits(row));
    assert((selection.page as nat) * (selection.page_size as nat) == selection.page_size
        * selection.page) by (nonlinear_arith);
    assert(selection.wanted(rows) =~= Seq::<Row>::empty());
}

} // verus!
