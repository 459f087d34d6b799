//! The counter entity: the service's only persisted value.
//!
//! A name is carried as its UTF-8 bytes, exactly as it stands in the URL
//! path segment that names the counter.

use vstd::prelude::*;

verus! {

/// One row of the counters table: a surrogate key assigned by the store,
/// a name, and a signed value. Values may go negative; nothing clamps them.
pub struct Counter {
    /// Surrogate key, unique over the table, assigned at insertion.
    pub id: u64,
    /// UTF-8 bytes of the counter's name. Not unique: inserting twice under
    /// one name makes two rows.
    pub name: Vec<u8>,
    /// The counted value.
    pub value: i64,
}

/// The mathematical image of one row.
pub ghost struct CounterView {
    pub id: u64,
    pub name: Seq<u8>,
    pub value: i64,
}

impl View for Counter {
    type V = CounterView;

    open spec fn view(&self) -> CounterView {
        CounterView { id: self.id, name: self.name@, value: self.value }
    }
}

impl Counter {
    /// Copies the row. Written out because the name buffer must be copied
    /// byte for byte for the view to carry over.
    pub fn duplicate(&self) -> (c: Counter)
        ensures
            c@ == self@,
    {
        Counter { id: self.id, name: copy_bytes(&self.name), value: self.value }
    }
}

/// A row as a caller hands it in: a name and an initial or delta value,
/// with no key yet (the store assigns one).
pub struct NewCounter {
    /// UTF-8 bytes of the counter's name.
    pub name: Vec<u8>,
    /// Initial value on insertion; amount to subtract on decrement.
    pub counter: i64,
}

/// Copies a byte buffer.
pub fn copy_bytes(src: &Vec<u8>) -> (out: Vec<u8>)
    ensures
        out@ == src@,
{
    let mut out: Vec<u8> = Vec::new();
    let mut i: usize = 0;
    while i < src.len()
        invariant
            i <= src.len(),
            out@ == src@.take(i as int),
        decreases src.len() - i,
    {
        out.push(src[i]);
        i = i + 1;
        proof {
            assert(out@ =~= src@.take(i as int));
        }
    }
    proof {
        assert(out@ =~= src@);
    }
    out
}

/// Byte-for-byte equality of two buffers.
pub fn bytes_eq(a: &Vec<u8>, b: &Vec<u8>) -> (r: bool)
    ensures
        r == (a@ == b@),
{
    if a.len() != b.len() {
        proof {
            assert(a@ != b@);
        }
        return false;
    }
    let mut i: usize = 0;
    while i < a.len()
        invariant
            i <= a.len(),
            a@.len() == b@.len(),
            forall|j: int| 0 <= j < i ==> a@[j] == b@[j],
        decreases a.len() - i,
    {
        if a[i] != b[i] {
            proof {
                assert(a@ != b@);
            }
            return false;
        }
        i = i + 1;
    }
    proof {
        assert(a@ =~= b@);
    }
    true
}

} // verus!
