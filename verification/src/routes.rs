//! The routing table: from a URL path to a typed request.
//!
//! Four patterns are served, all with the GET method:
//!
//! | pattern                   | request                      |
//! |---------------------------|------------------------------|
//! | `/`                       | list every counter           |
//! | `/add/<name>/<number>`    | insert a counter             |
//! | `/subtract/<name>/<number>` | decrement a counter        |
//! | `/status/<name>`          | look a counter up by name    |
//!
//! A `<name>` segment is any nonempty run of bytes without `/`; a `<number>`
//! segment is a nonempty run of decimal digits whose value fits in `u32`.
//! Everything else falls through to "no route".

use vstd::prelude::*;

verus! {

/// The byte `/`, the segment separator.
pub open spec fn slash() -> u8 {
    47
}

/// A typed request, as the routing table extracts it from a path.
pub enum Request {
    /// `GET /`: list every counter.
    All,
    /// `GET /add/<name>/<number>`: insert a counter under `name` with
    /// initial value `number`.
    Add { name: Vec<u8>, number: u32 },
    /// `GET /subtract/<name>/<number>`: decrement the counter `name` by
    /// `number`.
    Subtract { name: Vec<u8>, number: u32 },
    /// `GET /status/<name>`: look the counter `name` up.
    Status { name: Vec<u8> },
}

/// The mathematical image of a request.
pub ghost enum RequestView {
    All,
    Add { name: Seq<u8>, number: u32 },
    Subtract { name: Seq<u8>, number: u32 },
    Status { name: Seq<u8> },
}

impl View for Request {
    type V = RequestView;

    open spec fn view(&self) -> RequestView {
        match self {
            Request::All => RequestView::All,
            Request::Add { name, number } => RequestView::Add { name: name@, number: *number },
            Request::Subtract { name, number } => RequestView::Subtract {
                name: name@,
                number: *number,
            },
            Request::Status { name } => RequestView::Status { name: name@ },
        }
    }
}

/// Is this byte a decimal digit?
pub open spec fn is_digit(b: u8) -> bool {
    48 <= b <= 57
}

/// Is this segment entirely decimal digits?
pub open spec fn all_digits(s: Seq<u8>) -> bool {
    forall|i: int| 0 <= i < s.len() ==> is_digit(#[trigger] s[i])
}

/// The number the digit run denotes, most significant digit first.
pub open spec fn dec_value(s: Seq<u8>) -> nat
    decreases s.len(),
{
    if s.len() == 0 {
        0
    } else {
        dec_value(s.drop_last()) * 10 + (s.last() - 48) as nat
    }
}

/// Is this segment a well-formed `<number>` parameter: nonempty, all
/// digits, and small enough for `u32`?
pub open spec fn valid_number(s: Seq<u8>) -> bool {
    s.len() > 0 && all_digits(s) && dec_value(s) <= u32::MAX
}

/// Extending a digit run never shrinks its value.
proof fn lemma_dec_value_take_le(s: Seq<u8>, i: int)
    requires
        0 <= i <= s.len(),
        all_digits(s),
    ensures
        dec_value(s.take(i)) <= dec_value(s),
    decreases s.len() - i,
{
    if i < s.len() {
        lemma_dec_value_take_le(s, i + 1);
        let t = s.take(i + 1);
        assert(t.drop_last() =~= s.take(i));
        assert(t.last() == s[i]);
        assert(dec_value(s.take(i)) <= dec_value(s.take(i + 1)));
    } else {
        assert(s.take(i) =~= s);
    }
}

/// Parses a `<number>` segment. Answers the denoted value exactly when the
/// segment is a well-formed `u32` parameter, and nothing otherwise.
pub fn parse_u32(s: &Vec<u8>) -> (r: Option<u32>)
    ensures
        match r {
            Some(n) => valid_number(s@) && n == dec_value(s@),
            None => !valid_number(s@),
        },
{
    if s.len() == 0 {
        return None;
    }
    let mut value: u32 = 0;
    let mut i: usize = 0;
    while i < s.len()
        invariant
            0 < s@.len(),
            i <= s.len(),
            all_digits(s@.take(i as int)),
            value == dec_value(s@.take(i as int)),
        decreases s.len() - i,
    {
        let b = s[i];
        if b < 48 || b > 57 {
            proof {
                assert(!is_digit(s@[i as int]));
                assert(!all_digits(s@));
            }
            return None;
        }
        let d = (b - 48) as u32;
        if value > (u32::MAX - d) / 10 {
            proof {
                if all_digits(s@) {
                    let t = s@.take(i as int + 1);
                    assert(t.drop_last() =~= s@.take(i as int));
                    assert(t.last() == s@[i as int]);
                    assert(dec_value(t) == value * 10 + d);
                    assert(value * 10 + d > u32::MAX) by (nonlinear_arith)
                        requires
                            value > (u32::MAX - d) / 10,
                            0 <= d <= 9,
                    ;
                    lemma_dec_value_take_le(s@, i as int + 1);
                }
            }
            return None;
        }
        proof {
            let t = s@.take(i as int + 1);
            assert(t.drop_last() =~= s@.take(i as int));
            assert(t.last() == s@[i as int]);
            assert(value * 10 + d <= u32::MAX) by (nonlinear_arith)
                requires
                    value <= (u32::MAX - d) / 10,
                    0 <= d <= 9,
            ;
        }
        value = value * 10 + d;
        i = i + 1;
    }
    proof {
        assert(s@.take(i as int) =~= s@);
    }
    Some(value)
}

/// The segments of a path body, split on `/`. An empty body is one empty
/// segment; every separator opens a new segment, so `a//b` has an empty
/// middle segment.
pub open spec fn spec_split(s: Seq<u8>) -> Seq<Seq<u8>>
    decreases s.len(),
{
    if s.len() == 0 {
        seq![Seq::<u8>::empty()]
    } else if s[0] == slash() {
        seq![Seq::<u8>::empty()] + spec_split(s.drop_first())
    } else {
        let rest = spec_split(s.drop_first());
        seq![seq![s[0]] + rest[0]] + rest.drop_first()
    }
}

/// No separator: the whole body is its one segment.
proof fn lemma_split_whole(s: Seq<u8>)
    requires
        forall|i: int| 0 <= i < s.len() ==> #[trigger] s[i] != slash(),
    ensures
        spec_split(s) == seq![s],
    decreases s.len(),
{
    if s.len() == 0 {
        assert(s =~= Seq::<u8>::empty());
        assert(spec_split(s) =~= seq![s]);
    } else {
        let body = s.drop_first();
        assert forall|i: int| 0 <= i < body.len() implies #[trigger] body[i] != slash() by {
            assert(body[i] == s[i + 1]);
        }
        lemma_split_whole(body);
        assert(s[0] != slash());
        let rest = spec_split(body);
        assert(rest == seq![body]);
        assert(rest[0] == body);
        assert(rest.drop_first() =~= Seq::<Seq<u8>>::empty());
        assert(spec_split(s) == seq![seq![s[0]] + rest[0]] + rest.drop_first());
        assert(seq![s[0]] + body =~= s);
        assert(seq![seq![s[0]] + rest[0]] + rest.drop_first() =~= seq![s]);
    }
}

/// A separator after a clean prefix: the prefix is the first segment and
/// the remainder splits on its own.
proof fn lemma_split_step(x: Seq<u8>, y: Seq<u8>)
    requires
        forall|i: int| 0 <= i < x.len() ==> #[trigger] x[i] != slash(),
    ensures
        spec_split(x + seq![slash()] + y) == seq![x] + spec_split(y),
    decreases x.len(),
{
    let s = x + seq![slash()] + y;
    if x.len() == 0 {
        assert(s[0] == slash());
        assert(s.drop_first() =~= y);
        assert(x =~= Seq::<u8>::empty());
        assert(spec_split(s) =~= seq![x] + spec_split(y));
    } else {
        let xr = x.drop_first();
        assert forall|i: int| 0 <= i < xr.len() implies #[trigger] xr[i] != slash() by {
            assert(xr[i] == x[i + 1]);
        }
        lemma_split_step(xr, y);
        assert(s[0] == x[0]);
        assert(s[0] != slash());
        assert(s.drop_first() =~= xr + seq![slash()] + y);
        let rest = spec_split(s.drop_first());
        assert(rest == seq![xr] + spec_split(y));
        assert(rest[0] == xr);
        assert(spec_split(s) == seq![seq![s[0]] + rest[0]] + rest.drop_first());
        assert(seq![s[0]] + rest[0] =~= x);
        assert(rest.drop_first() =~= spec_split(y));
        assert(seq![seq![s[0]] + rest[0]] + rest.drop_first() =~= seq![x] + spec_split(y));
    }
}

/// The mathematical image of a segment buffer.
pub open spec fn segs_view(segs: Seq<Vec<u8>>) -> Seq<Seq<u8>> {
    segs.map_values(|s: Vec<u8>| s@)
}

/// Splits the body of a path (everything after the leading `/`) into its
/// segments.
fn split_segments(path: &Vec<u8>) -> (segs: Vec<Vec<u8>>)
    requires
        path@.len() >= 1,
        path@[0] == slash(),
    ensures
        segs_view(segs@) == spec_split(path@.drop_first()),
{
    let ghost body = path@.drop_first();
    let mut segs: Vec<Vec<u8>> = Vec::new();
    let mut cur: Vec<u8> = Vec::new();
    let mut i: usize = 1;
    while i < path.len()
        invariant
            path@.len() >= 1,
            path@[0] == slash(),
            body == path@.drop_first(),
            1 <= i <= path.len(),
            forall|j: int| 0 <= j < cur@.len() ==> #[trigger] cur@[j] != slash(),
            spec_split(body) == segs_view(segs@) + spec_split(cur@ + path@.subrange(
                i as int,
                path@.len() as int,
            )),
        decreases path.len() - i,
    {
        let b = path[i];
        let ghost pre_cur = cur@;
        let ghost pre_segs = segs@;
        let ghost suffix = path@.subrange(i as int, path@.len() as int);
        let ghost suffix2 = path@.subrange(i as int + 1, path@.len() as int);
        if b == 47 {
            segs.push(cur);
            cur = Vec::new();
            proof {
                lemma_split_step(pre_cur, suffix2);
                assert(pre_cur + suffix =~= pre_cur + seq![slash()] + suffix2);
                assert(segs_view(segs@) =~= segs_view(pre_segs).push(pre_cur));
                assert(segs_view(pre_segs) + (seq![pre_cur] + spec_split(suffix2))
                    =~= segs_view(segs@) + spec_split(suffix2));
                assert(cur@ + suffix2 =~= suffix2);
            }
        } else {
            cur.push(b);
            proof {
                assert(pre_cur + suffix =~= cur@ + suffix2);
            }
        }
        i = i + 1;
    }
    proof {
        assert(cur@ + path@.subrange(i as int, path@.len() as int) =~= cur@);
        lemma_split_whole(cur@);
    }
    let ghost last = cur@;
    segs.push(cur);
    proof {
        assert(segs_view(segs@) =~= segs_view(segs@.drop_last()).push(last));
        assert(segs_view(segs@.drop_last()) + seq![last] =~= segs_view(segs@));
        assert(segs_view(segs@) == spec_split(body));
    }
    segs
}

/// The bytes of the word `add`.
pub open spec fn add_word() -> Seq<u8> {
    seq![97u8, 100u8, 100u8]
}

/// The bytes of the word `subtract`.
pub open spec fn subtract_word() -> Seq<u8> {
    seq![115u8, 117u8, 98u8, 116u8, 114u8, 97u8, 99u8, 116u8]
}

/// The bytes of the word `status`.
pub open spec fn status_word() -> Seq<u8> {
    seq![115u8, 116u8, 97u8, 116u8, 117u8, 115u8]
}

/// The routing table over a path's segments: which request, if any, a
/// segmentation selects.
pub open spec fn spec_route(segs: Seq<Seq<u8>>) -> Option<RequestView> {
    if segs.len() == 1 && segs[0].len() == 0 {
        Some(RequestView::All)
    } else if segs.len() == 3 && segs[0] == add_word() && segs[1].len() > 0 && valid_number(
        segs[2],
    ) {
        Some(RequestView::Add { name: segs[1], number: dec_value(segs[2]) as u32 })
    } else if segs.len() == 3 && segs[0] == subtract_word() && segs[1].len() > 0 && valid_number(
        segs[2],
    ) {
        Some(RequestView::Subtract { name: segs[1], number: dec_value(segs[2]) as u32 })
    } else if segs.len() == 2 && segs[0] == status_word() && segs[1].len() > 0 {
        Some(RequestView::Status { name: segs[1] })
    } else {
        None
    }
}

/// What the routing table makes of a whole path: no route unless the path
/// starts with `/`, else the route its segments select.
pub open spec fn spec_parse_path(path: Seq<u8>) -> Option<RequestView> {
    if path.len() == 0 || path[0] != slash() {
        None
    } else {
        spec_route(spec_split(path.drop_first()))
    }
}

/// Does this segment spell `add`?
fn is_add_word(seg: &Vec<u8>) -> (r: bool)
    ensures
        r == (seg@ == add_word()),
{
    let r = seg.len() == 3 && seg[0] == 97 && seg[1] == 100 && seg[2] == 100;
    proof {
        if r {
            assert(seg@ =~= add_word());
        }
    }
    r
}

/// Does this segment spell `subtract`?
fn is_subtract_word(seg: &Vec<u8>) -> (r: bool)
    ensures
        r == (seg@ == subtract_word()),
{
    let r = seg.len() == 8 && seg[0] == 115 && seg[1] == 117 && seg[2] == 98 && seg[3] == 116
        && seg[4] == 114 && seg[5] == 97 && seg[6] == 99 && seg[7] == 116;
    proof {
        if r {
            assert(seg@ =~= subtract_word());
        }
    }
    r
}

/// Does this segment spell `status`?
fn is_status_word(seg: &Vec<u8>) -> (r: bool)
    ensures
        r == (seg@ == status_word()),
{
    let r = seg.len() == 6 && seg[0] == 115 && seg[1] == 116 && seg[2] == 97 && seg[3] == 116
        && seg[4] == 117 && seg[5] == 115;
    proof {
        if r {
            assert(seg@ =~= status_word());
        }
    }
    r
}

/// Looks a path up in the routing table and extracts the typed parameters.
/// Answers exactly the request that `spec_parse_path` selects, and nothing
/// when no pattern matches.
pub fn parse_path(path: &Vec<u8>) -> (r: Option<Request>)
    ensures
        match r {
            Some(req) => spec_parse_path(path@) == Some(req@),
            None => spec_parse_path(path@) is None,
        },
{
    if path.len() == 0 || path[0] != 47 {
        return None;
    }
    let mut segs = split_segments(path);
    proof {
        assert forall|j: int| 0 <= j < segs@.len() implies segs_view(segs@)[j] == segs@[j]@ by {}
    }
    if segs.len() == 1 {
        if segs[0].len() == 0 {
            return Some(Request::All);
        }
        return None;
    }
    if segs.len() == 2 {
        if is_status_word(&segs[0]) && segs[1].len() > 0 {
            let name = segs.pop().unwrap();
            return Some(Request::Status { name });
        }
        return None;
    }
    if segs.len() == 3 {
        let is_add = is_add_word(&segs[0]);
        let is_sub = is_subtract_word(&segs[0]);
        if (is_add || is_sub) && segs[1].len() > 0 {
            match parse_u32(&segs[2]) {
                Some(number) => {
                    let _last = segs.pop();
                    let name = segs.pop().unwrap();
                    if is_add {
                        return Some(Request::Add { name, number });
                    }
                    return Some(Request::Subtract { name, number });
                },
                None => {
                    return None;
                },
            }
        }
        return None;
    }
    None
}

} // verus!
