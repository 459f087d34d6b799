//! The textual response bodies, rendered byte for byte.
//!
//! A confirmation body shows the row a mutation touched, in the shape
//! `Counter { id: 7, name: "score", counter: -2 }`, prefixed by the word of
//! the operation (`Added `, `Subtracted: `, `Hello, `). A failed lookup or
//! refused update shows the error's name instead. Every renderer is
//! specified down to the exact byte sequence it emits.

use vstd::prelude::*;

use crate::errors::DbError;
use crate::models::Counter;
use crate::models::CounterView;

verus! {

/// Decimal digits of `n`, most significant first, no sign and no padding.
pub open spec fn spec_u64_dec(n: nat) -> Seq<u8>
    decreases n,
{
    if n < 10 {
        seq![(48 + n) as u8]
    } else {
        spec_u64_dec(n / 10) + seq![(48 + n % 10) as u8]
    }
}

/// Decimal rendering of a signed value: a leading `-` before the magnitude
/// when negative.
pub open spec fn spec_i64_dec(v: i64) -> Seq<u8> {
    if v >= 0 {
        spec_u64_dec(v as nat)
    } else {
        seq![45u8] + spec_u64_dec((-(v as int)) as nat)
    }
}

/// Appends the decimal digits of `n`.
fn push_u64_dec(out: &mut Vec<u8>, n: u64)
    ensures
        final(out)@ == old(out)@ + spec_u64_dec(n as nat),
    decreases n,
{
    if n < 10 {
        out.push(48 + n as u8);
        proof {
            assert(out@ =~= old(out)@ + spec_u64_dec(n as nat));
        }
    } else {
        push_u64_dec(out, n / 10);
        out.push(48 + (n % 10) as u8);
        proof {
            assert(out@ =~= old(out)@ + spec_u64_dec(n as nat));
        }
    }
}

/// Appends the decimal rendering of a signed value.
fn push_i64_dec(out: &mut Vec<u8>, v: i64)
    ensures
        final(out)@ == old(out)@ + spec_i64_dec(v),
{
    if v >= 0 {
        push_u64_dec(out, v as u64);
    } else {
        out.push(45);
        let magnitude = (-(v as i128)) as u64;
        proof {
            assert(magnitude == (-(v as int)) as nat);
        }
        push_u64_dec(out, magnitude);
        proof {
            assert(out@ =~= old(out)@ + spec_i64_dec(v));
        }
    }
}

/// The bytes of `Counter { id: `.
pub open spec fn counter_open() -> Seq<u8> {
    seq![
        67u8, 111u8, 117u8, 110u8, 116u8, 101u8, 114u8, 32u8, 123u8, 32u8, 105u8, 100u8, 58u8,
        32u8,
    ]
}

/// The bytes of `, name: "`.
pub open spec fn counter_name_sep() -> Seq<u8> {
    seq![44u8, 32u8, 110u8, 97u8, 109u8, 101u8, 58u8, 32u8, 34u8]
}

/// The bytes of `", counter: `.
pub open spec fn counter_value_sep() -> Seq<u8> {
    seq![34u8, 44u8, 32u8, 99u8, 111u8, 117u8, 110u8, 116u8, 101u8, 114u8, 58u8, 32u8]
}

/// The bytes of ` }`.
pub open spec fn counter_close() -> Seq<u8> {
    seq![32u8, 125u8]
}

/// The text of one row: `Counter { id: <id>, name: "<name>", counter: <value> }`.
pub open spec fn spec_counter_text(c: CounterView) -> Seq<u8> {
    counter_open() + spec_u64_dec(c.id as nat) + counter_name_sep() + c.name + counter_value_sep()
        + spec_i64_dec(c.value) + counter_close()
}

/// The text of an error: its name.
pub open spec fn spec_error_text(e: DbError) -> Seq<u8> {
    match e {
        // `NotFound`
        DbError::NotFound => seq![78u8, 111u8, 116u8, 70u8, 111u8, 117u8, 110u8, 100u8],
        // `DatabaseError`
        DbError::DatabaseError => seq![
            68u8, 97u8, 116u8, 97u8, 98u8, 97u8, 115u8, 101u8, 69u8, 114u8, 114u8, 111u8, 114u8,
        ],
    }
}

/// The text of a lookup or update outcome: the row's text, or the error's.
pub open spec fn spec_outcome_text(r: Result<CounterView, DbError>) -> Seq<u8> {
    match r {
        Ok(c) => spec_counter_text(c),
        Err(e) => spec_error_text(e),
    }
}

/// Appends `Counter { id: `.
fn push_counter_open(out: &mut Vec<u8>)
    ensures
        final(out)@ == old(out)@ + counter_open(),
{
    out.push(67);
    out.push(111);
    out.push(117);
    out.push(110);
    out.push(116);
    out.push(101);
    out.push(114);
    out.push(32);
    out.push(123);
    out.push(32);
    out.push(105);
    out.push(100);
    out.push(58);
    out.push(32);
    proof {
        assert(out@ =~= old(out)@ + counter_open());
    }
}

/// Appends `, name: "`.
fn push_counter_name_sep(out: &mut Vec<u8>)
    ensures
        final(out)@ == old(out)@ + counter_name_sep(),
{
    out.push(44);
    out.push(32);
    out.push(110);
    out.push(97);
    out.push(109);
    out.push(101);
    out.push(58);
    out.push(32);
    out.push(34);
    proof {
        assert(out@ =~= old(out)@ + counter_name_sep());
    }
}

/// Appends `", counter: `.
fn push_counter_value_sep(out: &mut Vec<u8>)
    ensures
        final(out)@ == old(out)@ + counter_value_sep(),
{
    out.push(34);
    out.push(44);
    out.push(32);
    out.push(99);
    out.push(111);
    out.push(117);
    out.push(110);
    out.push(116);
    out.push(101);
    out.push(114);
    out.push(58);
    out.push(32);
    proof {
        assert(out@ =~= old(out)@ + counter_value_sep());
    }
}

/// Appends the bytes of another buffer.
pub fn append_bytes(out: &mut Vec<u8>, src: &Vec<u8>)
    ensures
        final(out)@ == old(out)@ + src@,
{
    let mut i: usize = 0;
    while i < src.len()
        invariant
            i <= src.len(),
            out@ == old(out)@ + src@.take(i as int),
        decreases src.len() - i,
    {
        out.push(src[i]);
        i = i + 1;
        proof {
            assert(out@ =~= old(out)@ + src@.take(i as int));
        }
    }
    proof {
        assert(out@ =~= old(out)@ + src@);
    }
}

/// Renders one row as text.
pub fn render_counter(c: &Counter) -> (out: Vec<u8>)
    ensures
        out@ == spec_counter_text(c@),
{
    let mut out: Vec<u8> = Vec::new();
    push_counter_open(&mut out);
    push_u64_dec(&mut out, c.id);
    push_counter_name_sep(&mut out);
    append_bytes(&mut out, &c.name);
    push_counter_value_sep(&mut out);
    push_i64_dec(&mut out, c.value);
    out.push(32);
    out.push(125);
    proof {
        assert(out@ =~= spec_counter_text(c@));
    }
    out
}

/// Renders an error as text.
pub fn render_error(e: DbError) -> (out: Vec<u8>)
    ensures
        out@ == spec_error_text(e),
{
    let mut out: Vec<u8> = Vec::new();
    match e {
        DbError::NotFound => {
            out.push(78);
            out.push(111);
            out.push(116);
            out.push(70);
            out.push(111);
            out.push(117);
            out.push(110);
            out.push(100);
        },
        DbError::DatabaseError => {
            out.push(68);
            out.push(97);
            out.push(116);
            out.push(97);
            out.push(98);
            out.push(97);
            out.push(115);
            out.push(101);
            out.push(69);
            out.push(114);
            out.push(114);
            out.push(111);
            out.push(114);
        },
    }
    proof {
        assert(out@ =~= spec_error_text(e));
    }
    out
}

/// Renders a lookup or update outcome as text.
pub fn render_outcome(r: &Result<Counter, DbError>) -> (out: Vec<u8>)
    ensures
        match r {
            Ok(c) => out@ == spec_outcome_text(Ok(c@)),
            Err(e) => out@ == spec_outcome_text(Err(*e)),
        },
{
    match r {
        Ok(c) => render_counter(c),
        Err(e) => render_error(*e),
    }
}

} // verus!
