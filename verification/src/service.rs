//! The service: startup gate, request dispatch, and responses.
//!
//! A service starts with every schema migration pending and must not answer
//! requests until all of them are applied: `handle` requires the serving
//! state, and the well-formedness invariant ties the serving state to a
//! fully migrated schema. Each request is then a pure function of the path
//! and the table: the routing table picks the operation, the table model
//! runs it, and the outcome is rendered into a response.

use vstd::prelude::*;

use crate::actions::CounterTable;
use crate::actions::rows_view;
use crate::actions::spec_add_row;
use crate::actions::spec_add_rows;
use crate::actions::spec_lookup;
use crate::actions::spec_subtract_result;
use crate::actions::spec_subtract_rows;
use crate::errors::DbError;
use crate::errors::MigrationError;
use crate::models::Counter;
use crate::models::CounterView;
use crate::models::NewCounter;
use crate::render::spec_counter_text;
use crate::render::spec_error_text;
use crate::render::render_counter;
use crate::render::render_outcome;
use crate::routes::RequestView;
use crate::routes::Request;
use crate::routes::parse_path;
use crate::routes::spec_parse_path;

verus! {

/// What a handler answers.
pub enum Response {
    /// Every counter, in storage order; served as a JSON array with
    /// status 200. Serialization happens at the HTTP edge.
    Counters { counters: Vec<Counter> },
    /// A textual confirmation, status 200.
    Text { body: Vec<u8> },
    /// The path or the name was not found, status 404.
    NotFound { body: Vec<u8> },
    /// The store refused the operation, status 500.
    ServerError { body: Vec<u8> },
}

/// The mathematical image of a response.
pub ghost enum ResponseView {
    Counters { counters: Seq<CounterView> },
    Text { body: Seq<u8> },
    NotFound { body: Seq<u8> },
    ServerError { body: Seq<u8> },
}

impl View for Response {
    type V = ResponseView;

    open spec fn view(&self) -> ResponseView {
        match self {
            Response::Counters { counters } => ResponseView::Counters {
                counters: rows_view(counters@),
            },
            Response::Text { body } => ResponseView::Text { body: body@ },
            Response::NotFound { body } => ResponseView::NotFound { body: body@ },
            Response::ServerError { body } => ResponseView::ServerError { body: body@ },
        }
    }
}

/// The HTTP status code of a response.
pub open spec fn spec_status_code(r: ResponseView) -> u16 {
    match r {
        ResponseView::Counters { .. } => 200,
        ResponseView::Text { .. } => 200,
        ResponseView::NotFound { .. } => 404,
        ResponseView::ServerError { .. } => 500,
    }
}

impl Response {
    /// The HTTP status code this response is served with.
    pub fn status_code(&self) -> (code: u16)
        ensures
            code == spec_status_code(self@),
    {
        match self {
            Response::Counters { .. } => 200,
            Response::Text { .. } => 200,
            Response::NotFound { .. } => 404,
            Response::ServerError { .. } => 500,
        }
    }
}

/// The bytes of `Added `.
pub open spec fn added_prefix() -> Seq<u8> {
    seq![65u8, 100u8, 100u8, 101u8, 100u8, 32u8]
}

/// The bytes of `Subtracted: `.
pub open spec fn subtracted_prefix() -> Seq<u8> {
    seq![83u8, 117u8, 98u8, 116u8, 114u8, 97u8, 99u8, 116u8, 101u8, 100u8, 58u8, 32u8]
}

/// The bytes of `Hello, `.
pub open spec fn hello_prefix() -> Seq<u8> {
    seq![72u8, 101u8, 108u8, 108u8, 111u8, 44u8, 32u8]
}

/// The bytes of `no route`, the body of the catch-all answer.
pub open spec fn no_route_text() -> Seq<u8> {
    seq![110u8, 111u8, 32u8, 114u8, 111u8, 117u8, 116u8, 101u8]
}

/// What dispatching one request against a table answers, given the key the
/// next insertion would receive.
pub open spec fn spec_dispatch_response(
    rows: Seq<CounterView>,
    next_id: u64,
    req: RequestView,
) -> ResponseView {
    match req {
        RequestView::All => ResponseView::Counters { counters: rows },
        RequestView::Add { name, number } => ResponseView::Text {
            body: added_prefix() + spec_counter_text(
                spec_add_row(next_id, name, number as i64),
            ),
        },
        RequestView::Subtract { name, number } => {
            match spec_subtract_result(rows, name, number as i64) {
                Ok(c) => ResponseView::Text { body: subtracted_prefix() + spec_counter_text(c) },
                Err(DbError::NotFound) => ResponseView::NotFound {
                    body: subtracted_prefix() + spec_error_text(DbError::NotFound),
                },
                Err(DbError::DatabaseError) => ResponseView::ServerError {
                    body: subtracted_prefix() + spec_error_text(DbError::DatabaseError),
                },
            }
        },
        RequestView::Status { name } => {
            match spec_lookup(rows, name) {
                Some(c) => ResponseView::Text { body: hello_prefix() + spec_counter_text(c) },
                None => ResponseView::NotFound {
                    body: hello_prefix() + spec_error_text(DbError::NotFound),
                },
            }
        },
    }
}

/// What dispatching one request leaves in the table.
pub open spec fn spec_dispatch_rows(
    rows: Seq<CounterView>,
    next_id: u64,
    req: RequestView,
) -> Seq<CounterView> {
    match req {
        RequestView::All => rows,
        RequestView::Add { name, number } => spec_add_rows(rows, next_id, name, number as i64),
        RequestView::Subtract { name, number } => spec_subtract_rows(rows, name, number as i64),
        RequestView::Status { .. } => rows,
    }
}

/// What handling one path answers: the catch-all 404 when no route matches,
/// else the dispatched response.
pub open spec fn spec_handle_response(
    rows: Seq<CounterView>,
    next_id: u64,
    path: Seq<u8>,
) -> ResponseView {
    match spec_parse_path(path) {
        None => ResponseView::NotFound { body: no_route_text() },
        Some(req) => spec_dispatch_response(rows, next_id, req),
    }
}

/// What handling one path leaves in the table.
pub open spec fn spec_handle_rows(rows: Seq<CounterView>, next_id: u64, path: Seq<u8>) -> Seq<
    CounterView,
> {
    match spec_parse_path(path) {
        None => rows,
        Some(req) => spec_dispatch_rows(rows, next_id, req),
    }
}

/// The service: its table, its migration progress, and whether it serves.
pub struct Service {
    /// The counters table.
    pub table: CounterTable,
    /// How many schema migrations the service knows of.
    pub migrations_total: usize,
    /// How many of them have been applied, in order, from the first.
    pub migrations_applied: usize,
    /// Whether the service answers requests.
    pub serving: bool,
}

impl Service {
    /// Migrations never run past the end, and a serving service has applied
    /// every one of them: the schema exists before the first request.
    pub open spec fn wf(&self) -> bool {
        &&& self.table.wf()
        &&& self.migrations_applied <= self.migrations_total
        &&& self.serving ==> self.migrations_applied == self.migrations_total
    }

    /// A fresh service: empty table, all migrations pending, not serving.
    pub fn new(migrations_total: usize) -> (s: Service)
        ensures
            s.wf(),
            s.table@ == Seq::<CounterView>::empty(),
            s.migrations_total == migrations_total,
            s.migrations_applied == 0,
            !s.serving,
    {
        Service {
            table: CounterTable::new(),
            migrations_total,
            migrations_applied: 0,
            serving: false,
        }
    }

    /// The index of the next migration to apply, oldest first; nothing when
    /// the schema is current.
    pub fn next_migration(&self) -> (r: Option<usize>)
        requires
            self.wf(),
        ensures
            match r {
                Some(i) => i == self.migrations_applied && i < self.migrations_total,
                None => self.migrations_applied == self.migrations_total,
            },
    {
        if self.migrations_applied < self.migrations_total {
            Some(self.migrations_applied)
        } else {
            None
        }
    }

    /// Records that the next pending migration has been applied.
    pub fn migration_applied(&mut self)
        requires
            old(self).wf(),
            old(self).migrations_applied < old(self).migrations_total,
        ensures
            final(self).wf(),
            final(self).migrations_applied == old(self).migrations_applied + 1,
            final(self).migrations_total == old(self).migrations_total,
            final(self).table == old(self).table,
            final(self).serving == old(self).serving,
    {
        self.migrations_applied = self.migrations_applied + 1;
    }

    /// Opens the service for requests. Refused while a migration is
    /// pending: the process must not serve over an unmigrated schema.
    pub fn begin_serving(&mut self) -> (r: Result<(), MigrationError>)
        requires
            old(self).wf(),
        ensures
            final(self).wf(),
            final(self).table == old(self).table,
            final(self).migrations_total == old(self).migrations_total,
            final(self).migrations_applied == old(self).migrations_applied,
            match r {
                Ok(()) => old(self).migrations_applied == old(self).migrations_total
                    && final(self).serving,
                Err(_) => old(self).migrations_applied != old(self).migrations_total
                    && final(self).serving == old(self).serving,
            },
    {
        if self.migrations_applied == self.migrations_total {
            self.serving = true;
            Ok(())
        } else {
            Err(MigrationError)
        }
    }

    /// Handles one request path: routes it, runs the selected operation
    /// against the table, and renders the response. Requires a serving
    /// (hence fully migrated) service, and room for one more key.
    pub fn handle(&mut self, path: &Vec<u8>) -> (r: Response)
        requires
            old(self).wf(),
            old(self).serving,
            old(self).table.next_id < u64::MAX,
        ensures
            final(self).wf(),
            final(self).serving,
            final(self).migrations_total == old(self).migrations_total,
            final(self).migrations_applied == old(self).migrations_applied,
            final(self).table@ == spec_handle_rows(old(self).table@, old(self).table.next_id, path@),
            final(self).table.next_id == (match spec_parse_path(path@) {
                Some(RequestView::Add { .. }) => old(self).table.next_id + 1,
                _ => old(self).table.next_id as int,
            }),
            r@ == spec_handle_response(old(self).table@, old(self).table.next_id, path@),
    {
        match parse_path(path) {
            None => {
                let body = no_route_body();
                Response::NotFound { body }
            },
            Some(Request::All) => {
                let counters = self.table.get_all_counters();
                Response::Counters { counters }
            },
            Some(Request::Add { name, number }) => {
                let inserted = self.table.add(NewCounter { name, counter: number as i64 });
                let mut body = added_body();
                let text = render_counter(&inserted);
                crate::render::append_bytes(&mut body, &text);
                proof {
                    assert(body@ =~= added_prefix() + spec_counter_text(inserted@));
                }
                Response::Text { body }
            },
            Some(Request::Subtract { name, number }) => {
                let outcome = self.table.subtract(NewCounter { name, counter: number as i64 });
                let mut body = subtracted_body();
                let text = render_outcome(&outcome);
                crate::render::append_bytes(&mut body, &text);
                match outcome {
                    Ok(c) => {
                        proof {
                            assert(body@ =~= subtracted_prefix() + spec_counter_text(c@));
                        }
                        Response::Text { body }
                    },
                    Err(DbError::NotFound) => {
                        proof {
                            assert(body@ =~= subtracted_prefix() + spec_error_text(
                                DbError::NotFound,
                            ));
                        }
                        Response::NotFound { body }
                    },
                    Err(DbError::DatabaseError) => {
                        proof {
                            assert(body@ =~= subtracted_prefix() + spec_error_text(
                                DbError::DatabaseError,
                            ));
                        }
                        Response::ServerError { body }
                    },
                }
            },
            Some(Request::Status { name }) => {
                let outcome = self.table.get_counter_by_name(&name);
                let mut body = hello_body();
                let text = render_outcome(&outcome);
                crate::render::append_bytes(&mut body, &text);
                match outcome {
                    Ok(c) => {
                        proof {
                            assert(body@ =~= hello_prefix() + spec_counter_text(c@));
                        }
                        Response::Text { body }
                    },
                    Err(_) => {
                        proof {
                            assert(body@ =~= hello_prefix() + spec_error_text(DbError::NotFound));
                        }
                        Response::NotFound { body }
                    },
                }
            },
        }
    }
}

/// A fresh buffer holding `Added `.
fn added_body() -> (out: Vec<u8>)
    ensures
        out@ == added_prefix(),
{
    let mut out: Vec<u8> = Vec::new();
    out.push(65);
    out.push(100);
    out.push(100);
    out.push(101);
    out.push(100);
    out.push(32);
    proof {
        assert(out@ =~= added_prefix());
    }
    out
}

/// A fresh buffer holding `Subtracted: `.
fn subtracted_body() -> (out: Vec<u8>)
    ensures
        out@ == subtracted_prefix(),
{
    let mut out: Vec<u8> = Vec::new();
    out.push(83);
    out.push(117);
    out.push(98);
    out.push(116);
    out.push(114);
    out.push(97);
    out.push(99);
    out.push(116);
    out.push(101);
    out.push(100);
    out.push(58);
    out.push(32);
    proof {
        assert(out@ =~= subtracted_prefix());
    }
    out
}

/// A fresh buffer holding `Hello, `.
fn hello_body() -> (out: Vec<u8>)
    ensures
        out@ == hello_prefix(),
{
    let mut out: Vec<u8> = Vec::new();
    out.push(72);
    out.push(101);
    out.push(108);
    out.push(108);
    out.push(111);
    out.push(44);
    out.push(32);
    proof {
        assert(out@ =~= hello_prefix());
    }
    out
}

/// A fresh buffer holding `no route`.
fn no_route_body() -> (out: Vec<u8>)
    ensures
        out@ == no_route_text(),
{
    let mut out: Vec<u8> = Vec::new();
    out.push(110);
    out.push(111);
    out.push(32);
    out.push(114);
    out.push(111);
    out.push(117);
    out.push(116);
    out.push(101);
    proof {
        assert(out@ =~= no_route_text());
    }
    out
}

} // verus!
