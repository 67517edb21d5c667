//! A store of users as a sequence of records, in the order in which they
//! were stored: what a backend holds that keeps what it is given. It says
//! what a selection finds after a create and what is left after a delete.

use crate::entity::Row;
use crate::local::selection::Selection;
use crate::management::lemma_one_item_fills_one_page;
use vstd::prelude::*;

verus! {

/// Whether one of `rows` has the identifier `id`.
pub open spec fn holds(rows: Seq<Row>, id: u128) -> bool {
    exists|i: int| 0 <= i < rows.len() && (#[trigger] rows[i]).id == id
}

/// `rows` once every record that has the identifier `id` is removed.
pub open spec fn without(rows: Seq<Row>, id: u128) -> Seq<Row> {
    rows.filter(|row: Row| row.id != id)
}

/// Where no record passes a test, filtering by it leaves nothing.
pub proof fn lemma_filter_none<T>(items: Seq<T>, test: spec_fn(T) -> bool)
    requires
        forall|i: int| 0 <= i < items.len() ==> !test(#[trigger] items[i]),
    ensures
        items.filter(test) == Seq::<T>::empty(),
    decreases items.len(),
{
    reveal(Seq::filter);
    if items.len() > 0 {
        lemma_filter_none(items.drop_last(), test);
    }
}

/// Once the records that have `id` are removed, no record has `id`: a
/// store that kept its word on a delete finds nothing at the next.
pub proof fn lemma_removed_is_absent(rows: Seq<Row>, id: u128)
    ensures
        !holds(without(rows, id), id),
{
    let kept = without(rows, id);
    assert forall|i: int| 0 <= i < kept.len() implies (#[trigger] kept[i]).id != id by {
        rows.lemma_filter_pred(|row: Row| row.id != id, i);
    }
}

/// Create, then read by the identifier that create assigned: where the
/// store held no record of that identifier before, the selection of that
/// identifier alone, first page, finds one page, and on it the new record
/// and no other.
pub proof fn lemma_created_is_read_back(rows: Seq<Row>, record: Row, selection: Selection)
    requires
        !holds(rows, record.id),
        selection.wf(),
        selection.id == Some(record.id),
        selection.pattern is None,
        selection.page == 0,
    ensures
        selection.matching(rows.push(record)) == seq![record],
        selection.num_pages(rows.push(record)) == 1,
        selection.wanted(rows.push(record)) == seq![record],
{
    let test = |row: Row| selection.admits(row);
    let stored = rows.push(record);
    assert(stored.drop_last() == rows);
    assert(stored.last() == record);
    lemma_filter_none(rows, test);
    reveal(Seq::filter);
    assert(stored.filter(test) == rows.filter(test).push(record));
    assert(selection.matching(stored) == seq![record]);
    let size = selection.page_size as nat;
    lemma_one_item_fills_one_page(size);
    assert(0 * size == 0) by (nonlinear_arith);
    assert(selection.wanted(stored) == seq![record]);
}

} // verus!
