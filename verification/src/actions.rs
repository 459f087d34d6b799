//! The four persistence operations over the counters table, verified
//! against a sequence model of the table.
//!
//! The store behind the running service is a relational table; this module
//! is its reference semantics. Every operation is specified over
//! `Seq<CounterView>`: `add` appends a row under a fresh key,
//! `subtract` decrements the first row with a matching name,
//! `get_counter_by_name` returns that first row, and `get_all_counters`
//! returns every row in storage order. Because names are not unique,
//! "first match in storage order" is the disambiguation rule that every
//! name-keyed operation follows.

use vstd::prelude::*;

use crate::errors::DbError;
use crate::models::Counter;
use crate::models::CounterView;
use crate::models::NewCounter;
use crate::models::bytes_eq;

verus! {

/// Does any row carry this name?
pub open spec fn has_counter(rows: Seq<CounterView>, name: Seq<u8>) -> bool {
    exists|i: int| 0 <= i < rows.len() && rows[i].name == name
}

/// Index of the first row carrying this name; `rows.len()` when none does.
pub open spec fn first_index(rows: Seq<CounterView>, name: Seq<u8>) -> int
    decreases rows.len(),
{
    if rows.len() == 0 {
        0
    } else if rows[0].name == name {
        0
    } else {
        1 + first_index(rows.subrange(1, rows.len() as int), name)
    }
}

/// What `first_index` finds: within bounds and first exactly when some row
/// matches, and one past the end when none does.
pub proof fn lemma_first_index(rows: Seq<CounterView>, name: Seq<u8>)
    ensures
        has_counter(rows, name) ==> {
            let fi = first_index(rows, name);
            &&& 0 <= fi < rows.len()
            &&& rows[fi].name == name
            &&& forall|j: int| 0 <= j < fi ==> rows[j].name != name
        },
        !has_counter(rows, name) ==> first_index(rows, name) == rows.len(),
    decreases rows.len(),
{
    if rows.len() == 0 {
    } else if rows[0].name == name {
    } else {
        let tail = rows.subrange(1, rows.len() as int);
        lemma_first_index(tail, name);
        assert forall|i: int| 0 <= i < rows.len() && rows[i].name == name implies i >= 1 by {}
        if has_counter(rows, name) {
            let w = choose|i: int| 0 <= i < rows.len() && rows[i].name == name;
            assert(tail[w - 1] == rows[w]);
            assert(has_counter(tail, name));
            let fi = first_index(rows, name);
            assert(fi == 1 + first_index(tail, name));
            assert(rows[fi] == tail[fi - 1]);
            assert forall|j: int| 0 <= j < fi implies rows[j].name != name by {
                if j >= 1 {
                    assert(rows[j] == tail[j - 1]);
                }
            }
        } else {
            assert forall|i: int| 0 <= i < tail.len() implies tail[i].name != name by {
                assert(tail[i] == rows[i + 1]);
            }
            assert(!has_counter(tail, name));
        }
    }
}

/// The looked-up row: the first row with this name, or nothing.
pub open spec fn spec_lookup(rows: Seq<CounterView>, name: Seq<u8>) -> Option<CounterView> {
    if has_counter(rows, name) {
        Some(rows[first_index(rows, name)])
    } else {
        None
    }
}

/// The row that `add` appends.
pub open spec fn spec_add_row(id: u64, name: Seq<u8>, value: i64) -> CounterView {
    CounterView { id, name, value }
}

/// The table after `add`: the old rows with the new row appended.
pub open spec fn spec_add_rows(rows: Seq<CounterView>, id: u64, name: Seq<u8>, value: i64) -> Seq<
    CounterView,
> {
    rows.push(spec_add_row(id, name, value))
}

/// Does the decremented value still fit the stored integer type?
pub open spec fn fits_i64(v: int) -> bool {
    i64::MIN <= v <= i64::MAX
}

/// The first matching row with `amount` taken off its value.
pub open spec fn spec_decremented(rows: Seq<CounterView>, name: Seq<u8>, amount: i64) -> CounterView {
    let old_row = rows[first_index(rows, name)];
    CounterView { id: old_row.id, name: old_row.name, value: (old_row.value - amount) as i64 }
}

/// The table after `subtract`: the first matching row decremented in place;
/// unchanged when no row matches or the new value would not fit.
pub open spec fn spec_subtract_rows(rows: Seq<CounterView>, name: Seq<u8>, amount: i64) -> Seq<
    CounterView,
> {
    if has_counter(rows, name) && fits_i64(rows[first_index(rows, name)].value - amount) {
        rows.update(first_index(rows, name), spec_decremented(rows, name, amount))
    } else {
        rows
    }
}

/// What `subtract` answers: the updated row; `NotFound` when no row carries
/// the name; `DatabaseError` when the decrement would leave the stored
/// integer's range (the database refuses such an update).
pub open spec fn spec_subtract_result(rows: Seq<CounterView>, name: Seq<u8>, amount: i64) -> Result<
    CounterView,
    DbError,
> {
    if !has_counter(rows, name) {
        Err(DbError::NotFound)
    } else if !fits_i64(rows[first_index(rows, name)].value - amount) {
        Err(DbError::DatabaseError)
    } else {
        Ok(spec_decremented(rows, name, amount))
    }
}

/// The mathematical image of a row buffer: each row's view, in order.
pub open spec fn rows_view(rows: Seq<Counter>) -> Seq<CounterView> {
    rows.map_values(|c: Counter| c@)
}

/// The counters table: rows in storage order and the next key to assign.
pub struct CounterTable {
    /// Rows in storage order: enumeration, lookup and update all read them
    /// front to back.
    pub rows: Vec<Counter>,
    /// The key the next insertion receives. Keys only grow.
    pub next_id: u64,
}

impl View for CounterTable {
    type V = Seq<CounterView>;

    open spec fn view(&self) -> Seq<CounterView> {
        rows_view(self.rows@)
    }
}

impl CounterTable {
    /// Every assigned key lies below `next_id`, and keys grow with storage
    /// order, so keys are unique.
    pub open spec fn wf(&self) -> bool {
        &&& forall|i: int| 0 <= i < self@.len() ==> #[trigger] self@[i].id < self.next_id
        &&& forall|i: int, j: int|
            0 <= i < j < self@.len() ==> #[trigger] self@[i].id < #[trigger] self@[j].id
    }

    /// An empty table. Keys start at 1, as a relational sequence does.
    pub fn new() -> (t: CounterTable)
        ensures
            t.wf(),
            t@ == Seq::<CounterView>::empty(),
            t.next_id == 1,
    {
        let t = CounterTable { rows: Vec::new(), next_id: 1 };
        proof {
            assert(t@ =~= Seq::<CounterView>::empty());
        }
        t
    }

    /// Every row, in storage order.
    pub fn get_all_counters(&self) -> (r: Vec<Counter>)
        ensures
            rows_view(r@) == self@,
    {
        let mut out: Vec<Counter> = Vec::new();
        let mut i: usize = 0;
        while i < self.rows.len()
            invariant
                i <= self.rows.len(),
                out@.len() == i,
                forall|j: int| 0 <= j < i ==> #[trigger] out@[j]@ == self.rows@[j]@,
            decreases self.rows.len() - i,
        {
            out.push(self.rows[i].duplicate());
            i = i + 1;
        }
        proof {
            assert forall|j: int| 0 <= j < out@.len() implies rows_view(out@)[j] == self@[j] by {
                assert(out@[j]@ == self.rows@[j]@);
            }
            assert(rows_view(out@) =~= self@);
        }
        out
    }

    /// Index of the first row carrying this name.
    fn find_first(&self, name: &Vec<u8>) -> (r: Option<usize>)
        ensures
            match r {
                Some(i) => i < self.rows.len() && i == first_index(self@, name@) && has_counter(
                    self@,
                    name@,
                ),
                None => !has_counter(self@, name@),
            },
    {
        let mut i: usize = 0;
        while i < self.rows.len()
            invariant
                i <= self.rows.len(),
                forall|j: int| 0 <= j < i ==> self@[j].name != name@,
            decreases self.rows.len() - i,
        {
            if bytes_eq(&self.rows[i].name, name) {
                proof {
                    assert(self@[i as int].name == name@);
                    lemma_first_index(self@, name@);
                    let fi = first_index(self@, name@);
                    if fi < i {
                        assert(self@[fi].name == name@);
                        assert(false);
                    }
                    if fi > i {
                        assert(self@[i as int].name != name@);
                        assert(false);
                    }
                }
                return Some(i);
            }
            i = i + 1;
        }
        proof {
            if has_counter(self@, name@) {
                let w = choose|k: int| 0 <= k < self@.len() && self@[k].name == name@;
                assert(self@[w].name != name@);
            }
        }
        None
    }

    /// Inserts a new row under the given name with the given initial value
    /// and returns the inserted row, fresh key included. Insert-only: a
    /// second `add` under the same name makes a second row.
    pub fn add(&mut self, new_counter: NewCounter) -> (c: Counter)
        requires
            old(self).wf(),
            old(self).next_id < u64::MAX,
        ensures
            final(self).wf(),
            final(self)@ == spec_add_rows(
                old(self)@,
                old(self).next_id,
                new_counter.name@,
                new_counter.counter,
            ),
            final(self).next_id == old(self).next_id + 1,
            c@ == spec_add_row(old(self).next_id, new_counter.name@, new_counter.counter),
    {
        let id = self.next_id;
        let row = Counter { id, name: new_counter.name, value: new_counter.counter };
        let copy = row.duplicate();
        self.rows.push(row);
        self.next_id = self.next_id + 1;
        proof {
            assert(self@ =~= spec_add_rows(
                old(self)@,
                old(self).next_id,
                copy@.name,
                new_counter.counter,
            ));
            assert forall|i: int, j: int| 0 <= i < j < self@.len() implies #[trigger] self@[i].id
                < #[trigger] self@[j].id by {
                if j < self@.len() - 1 {
                    assert(self@[i] == old(self)@[i]);
                    assert(self@[j] == old(self)@[j]);
                } else {
                    if i < self@.len() - 1 {
                        assert(self@[i] == old(self)@[i]);
                    }
                }
            }
        }
        copy
    }

    /// Decrements the first row carrying this name by `new_counter.counter`
    /// and returns the updated row. Answers `NotFound` when no row carries
    /// the name and `DatabaseError` when the decrement would not fit the
    /// stored integer; in both cases the table is unchanged.
    pub fn subtract(&mut self, new_counter: NewCounter) -> (r: Result<Counter, DbError>)
        requires
            old(self).wf(),
        ensures
            final(self).wf(),
            final(self)@ == spec_subtract_rows(old(self)@, new_counter.name@, new_counter.counter),
            final(self).next_id == old(self).next_id,
            match r {
                Ok(c) => spec_subtract_result(old(self)@, new_counter.name@, new_counter.counter)
                    == Ok::<CounterView, DbError>(c@),
                Err(e) => spec_subtract_result(old(self)@, new_counter.name@, new_counter.counter)
                    == Err::<CounterView, DbError>(e),
            },
    {
        match self.find_first(&new_counter.name) {
            None => Err(DbError::NotFound),
            Some(i) => {
                let old_value = self.rows[i].value;
                match old_value.checked_sub(new_counter.counter) {
                    None => {
                        proof {
                            assert(!fits_i64(
                                old(self)@[first_index(old(self)@, new_counter.name@)].value
                                    - new_counter.counter,
                            ));
                        }
                        Err(DbError::DatabaseError)
                    },
                    Some(new_value) => {
                        let row = Counter {
                            id: self.rows[i].id,
                            name: copy_row_name(&self.rows, i),
                            value: new_value,
                        };
                        let copy = row.duplicate();
                        self.rows.set(i, row);
                        proof {
                            assert(self@ =~= spec_subtract_rows(
                                old(self)@,
                                new_counter.name@,
                                new_counter.counter,
                            ));
                            assert forall|a: int, b: int| 0 <= a < b < self@.len() implies
                                #[trigger] self@[a].id < #[trigger] self@[b].id by {
                                assert(self@[a].id == old(self)@[a].id);
                                assert(self@[b].id == old(self)@[b].id);
                            }
                            assert forall|a: int| 0 <= a < self@.len() implies #[trigger] self@[a].id
                                < self.next_id by {
                                assert(self@[a].id == old(self)@[a].id);
                            }
                        }
                        Ok(copy)
                    },
                }
            },
        }
    }

    /// The first row carrying this name, or `NotFound`. This is the
    /// disambiguation rule of `status`: among rows sharing a name, the one
    /// first in storage order answers.
    pub fn get_counter_by_name(&self, name: &Vec<u8>) -> (r: Result<Counter, DbError>)
        ensures
            match r {
                Ok(c) => spec_lookup(self@, name@) == Some(c@),
                Err(e) => e == DbError::NotFound && spec_lookup(self@, name@) is None,
            },
    {
        match self.find_first(name) {
            Some(i) => Ok(self.rows[i].duplicate()),
            None => Err(DbError::NotFound),
        }
    }
}

/// Copies the name of row `i`.
fn copy_row_name(rows: &Vec<Counter>, i: usize) -> (out: Vec<u8>)
    requires
        i < rows.len(),
    ensures
        out@ == rows@[i as int].name@,
{
    crate::models::copy_bytes(&rows[i].name)
}

} // verus!
