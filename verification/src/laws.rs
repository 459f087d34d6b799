//! Laws relating the persistence operations, proved over the table model.
//!
//! Each law is stated over the spec-level operations that the executable
//! contracts in `actions` and `service` speak of, so together they pin the
//! observable behaviour of an `add` or `subtract` followed by a lookup, the
//! growth of the table, the status code of a failed lookup, and the startup
//! gate.

use vstd::prelude::*;

use crate::actions::first_index;
use crate::actions::has_counter;
use crate::actions::fits_i64;
use crate::actions::lemma_first_index;
use crate::actions::spec_add_row;
use crate::actions::spec_add_rows;
use crate::actions::spec_decremented;
use crate::actions::spec_lookup;
use crate::actions::spec_subtract_result;
use crate::actions::spec_subtract_rows;
use crate::errors::DbError;
use crate::models::CounterView;
use crate::routes::RequestView;
use crate::service::Service;
use crate::service::spec_dispatch_response;
use crate::service::spec_status_code;

verus! {

/// An index that matches and is preceded by no match is the first index.
proof fn lemma_first_index_pins(rows: Seq<CounterView>, name: Seq<u8>, i: int)
    requires
        0 <= i < rows.len(),
        rows[i].name == name,
        forall|j: int| 0 <= j < i ==> rows[j].name != name,
    ensures
        has_counter(rows, name),
        first_index(rows, name) == i,
{
    assert(has_counter(rows, name));
    lemma_first_index(rows, name);
    let fi = first_index(rows, name);
    if fi < i {
        assert(rows[fi].name != name);
    }
    if fi > i {
        assert(rows[i].name != name);
    }
}

/// After `add`, a counter with the given name and exactly the given value
/// stands among the rows that carry that name.
pub proof fn lemma_add_gives_candidate(rows: Seq<CounterView>, id: u64, name: Seq<u8>, value: i64)
    ensures
        has_counter(spec_add_rows(rows, id, name, value), name),
        exists|i: int|
            0 <= i < spec_add_rows(rows, id, name, value).len() && #[trigger] spec_add_rows(
                rows,
                id,
                name,
                value,
            )[i].name == name && spec_add_rows(rows, id, name, value)[i].value == value,
{
    let rows2 = spec_add_rows(rows, id, name, value);
    assert(rows2[rows.len() as int].name == name && rows2[rows.len() as int].value == value);
}

/// Under a name the table did not hold yet, `add` followed by a lookup of
/// that name answers precisely the inserted row, value included.
pub proof fn lemma_add_then_lookup(rows: Seq<CounterView>, id: u64, name: Seq<u8>, value: i64)
    requires
        !has_counter(rows, name),
    ensures
        spec_lookup(spec_add_rows(rows, id, name, value), name) == Some(
            spec_add_row(id, name, value),
        ),
{
    let rows2 = spec_add_rows(rows, id, name, value);
    assert forall|j: int| 0 <= j < rows.len() implies rows2[j].name != name by {
        assert(rows2[j] == rows[j]);
    }
    lemma_first_index_pins(rows2, name, rows.len() as int);
}

/// On a table holding the name, `subtract` followed by a lookup of that
/// name answers the first matching row with its value decreased by exactly
/// the subtracted amount (when the decrement fits the stored integer).
pub proof fn lemma_subtract_then_lookup(rows: Seq<CounterView>, name: Seq<u8>, amount: i64)
    requires
        has_counter(rows, name),
        fits_i64(rows[first_index(rows, name)].value - amount),
    ensures
        spec_lookup(spec_subtract_rows(rows, name, amount), name) == Some(
            spec_decremented(rows, name, amount),
        ),
        spec_decremented(rows, name, amount).value == rows[first_index(rows, name)].value - amount,
{
    lemma_first_index(rows, name);
    let fi = first_index(rows, name);
    let rows2 = spec_subtract_rows(rows, name, amount);
    assert(rows2[fi].name == name);
    assert forall|j: int| 0 <= j < fi implies rows2[j].name != name by {
        assert(rows2[j] == rows[j]);
    }
    lemma_first_index_pins(rows2, name, fi);
}

/// `subtract` of a name no row carries answers `NotFound` and leaves the
/// table as it was.
pub proof fn lemma_subtract_missing(rows: Seq<CounterView>, name: Seq<u8>, amount: i64)
    requires
        !has_counter(rows, name),
    ensures
        spec_subtract_result(rows, name, amount) == Err::<CounterView, DbError>(DbError::NotFound),
        spec_subtract_rows(rows, name, amount) == rows,
{
}

/// Each `add` grows the enumeration by exactly one row.
pub proof fn lemma_add_grows_by_one(rows: Seq<CounterView>, id: u64, name: Seq<u8>, value: i64)
    ensures
        spec_add_rows(rows, id, name, value).len() == rows.len() + 1,
{
}

/// `subtract` never changes the length of the enumeration, whether it
/// updates a row or fails.
pub proof fn lemma_subtract_keeps_len(rows: Seq<CounterView>, name: Seq<u8>, amount: i64)
    ensures
        spec_subtract_rows(rows, name, amount).len() == rows.len(),
{
    lemma_first_index(rows, name);
}

/// A status request for a name no row carries is answered with 404, not
/// with 500.
pub proof fn lemma_status_unknown_is_not_found(rows: Seq<CounterView>, next_id: u64, name: Seq<u8>)
    requires
        !has_counter(rows, name),
    ensures
        spec_status_code(spec_dispatch_response(rows, next_id, RequestView::Status { name }))
            == 404,
        spec_status_code(spec_dispatch_response(rows, next_id, RequestView::Status { name }))
            != 500,
{
}

/// A serving service has applied every schema migration: the migrated
/// schema exists before the first request is handled.
pub proof fn lemma_serving_implies_migrated(s: Service)
    requires
        s.wf(),
        s.serving,
    ensures
        s.migrations_applied == s.migrations_total,
{
}

} // verus!
