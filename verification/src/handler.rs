//! What a request is answered with.

use crate::adapter::ResponsePhase;
use crate::adapter::ResponseStreamAdapter;
use crate::encoder::times_of;
use crate::encoder::StreamingJsonEncoder;
use crate::record::OutputRecord;
use crate::record::TimeRecord;
use crate::store::SharedStore;
use vstd::prelude::*;
use vstd::string::*;

verus! {

/// Why the store gave no records.
#[derive(Clone, Copy, Debug, PartialEq, Eq)]
pub enum StoreFailure {
    /// The query could not be prepared.
    Prepare,
    /// A row could not be read as a record.
    Row,
}

/// The endpoint a request path names.
#[derive(Clone, Copy, Debug, PartialEq, Eq)]
pub enum Route {
    /// The records endpoint.
    Times,
    /// No endpoint: the request gets no answer from here.
    Unmatched,
}

/// Whether two texts are the same, character for character.
fn same_text(left: &str, right: &str) -> (same: bool)
    ensures
        same == (left@ == right@),
{
    let left_bytes = left.as_bytes();
    let right_bytes = right.as_bytes();
    if left_bytes.len() != right_bytes.len() {
        return false;
    }
    let mut i: usize = 0;
    while i < left_bytes.len()
        invariant
            left_bytes@ == vstd::utf8::encode_utf8(left@),
            right_bytes@ == vstd::utf8::encode_utf8(right@),
            left_bytes.len() == right_bytes.len(),
            i <= left_bytes.len(),
            forall|k: int| 0 <= k < i ==> left_bytes[k] == right_bytes[k],
        decreases left_bytes.len() - i,
    {
        if left_bytes[i] != right_bytes[i] {
            return false;
        }
        i = i + 1;
    }
    proof {
        assert(left_bytes@ =~= right_bytes@);
        vstd::utf8::encode_utf8_decode_utf8(left@);
        vstd::utf8::encode_utf8_decode_utf8(right@);
    }
    true
}

/// The endpoint that `path` names. A path names an endpoint only by being
/// that endpoint's path, letter for letter.
pub fn route(path: &str) -> (route: Route)
    ensures
        route is Times <==> path@ == "/times"@,
{
    if same_text(path, "/times") {
        Route::Times
    } else {
        Route::Unmatched
    }
}

/// The wire forms of a list of records: as many, in the same order.
pub open spec fn rendered(rows: Seq<TimeRecord>) -> Seq<Seq<char>> {
    Seq::new(rows.len(), |i: int| rows[i].rfc3339())
}

/// Renders every record, in the order given.
pub fn render_records(rows: &Vec<TimeRecord>) -> (records: Vec<OutputRecord>)
    ensures
        times_of(records@) == rendered(rows@),
{
    let mut records: Vec<OutputRecord> = Vec::new();
    let mut i: usize = 0;
    while i < rows.len()
        invariant
            i <= rows.len(),
            records.len() == i,
            forall|k: int| 0 <= k < i ==> (#[trigger] records[k])@ == rows[k].rfc3339(),
        decreases rows.len() - i,
    {
        records.push(rows[i].to_output());
        i = i + 1;
    }
    assert(times_of(records@) =~= rendered(rows@));
    records
}

/// Starts the JSON document of `records` on a response of which nothing has
/// been sent.
pub fn write_object(records: Vec<OutputRecord>) -> (encoder: StreamingJsonEncoder)
    ensures
        encoder.times() == times_of(records@),
        encoder.position() == 0,
        !encoder.aborted(),
        encoder.phase() is NotStarted,
{
    StreamingJsonEncoder::write_document(records, ResponseStreamAdapter::new())
}

/// What a request for the records is answered with, given what the store
/// gave: the store's failure as it is, or a document of the rows, rendered in
/// the store's order, with nothing of it sent yet.
pub open spec fn answers(
    reply: Result<StreamingJsonEncoder, StoreFailure>,
    fetched: Result<Vec<TimeRecord>, StoreFailure>,
) -> bool {
    match fetched {
        Ok(rows) => {
            &&& reply matches Ok(encoder)
            &&& encoder.times() == rendered(rows@)
            &&& encoder.position() == 0
            &&& !encoder.aborted()
            &&& encoder.phase() is NotStarted
        },
        Err(failure) => reply == Err::<StreamingJsonEncoder, StoreFailure>(failure),
    }
}

/// Whether a list of wire forms is what the store's answer renders to.
pub open spec fn renders(
    records: Result<Vec<OutputRecord>, StoreFailure>,
    fetched: Result<Vec<TimeRecord>, StoreFailure>,
) -> bool {
    match fetched {
        Ok(rows) => records matches Ok(list) && times_of(list@) == rendered(rows@),
        Err(failure) => records == Err::<Vec<OutputRecord>, StoreFailure>(failure),
    }
}

/// Renders what the store gave, and hands a failure on as it is.
pub fn render_fetched(fetched: Result<Vec<TimeRecord>, StoreFailure>) -> (records: Result<
    Vec<OutputRecord>,
    StoreFailure,
>)
    ensures
        renders(records, fetched),
{
    match fetched {
        Ok(rows) => Ok(render_records(&rows)),
        Err(failure) => Err(failure),
    }
}

/// Answers a request for every record of the store.
///
/// `fetch` reads the rows off the connection. It runs, and the rows are
/// rendered, while the connection is held; the document is started only after
/// the connection is given back.
pub fn times_handler<C, F>(store: &SharedStore<C>, fetch: F) -> (reply: Result<
    StreamingJsonEncoder,
    StoreFailure,
>) where F: FnOnce(&C) -> Result<Vec<TimeRecord>, StoreFailure>
    requires
        forall|connection: &C| call_requires(fetch, (connection,)),
    ensures
        exists|connection: &C, fetched: Result<Vec<TimeRecord>, StoreFailure>|
            call_ensures(fetch, (connection,), fetched) && answers(reply, fetched),
{
    let held = |connection: &C| -> (records: Result<Vec<OutputRecord>, StoreFailure>)
        ensures
            exists|fetched: Result<Vec<TimeRecord>, StoreFailure>|
                call_ensures(fetch, (connection,), fetched) && renders(records, fetched),
        { render_fetched(fetch(connection)) };
    match store.with_connection(held) {
        Ok(records) => Ok(write_object(records)),
        Err(failure) => Err(failure),
    }
}

/// Whether a request names the records endpoint. A request whose target is
/// no path at all names nothing.
pub open spec fn names_times(path: Option<&str>) -> bool {
    path matches Some(text) && text@ == "/times"@
}

/// Answers requests out of one shared store.
#[verifier::reject_recursive_types(C)]
pub struct Handler<C> {
    store: SharedStore<C>,
}

impl<C> Handler<C> {
    /// A handler that owns the connection to the store.
    pub fn new(connection: C) -> Self {
        Handler { store: SharedStore::new(connection) }
    }

    /// Answers one request.
    ///
    /// `path` is the path the request asks for, if its target is a path. A
    /// request for the records endpoint is answered as
    /// [`times_handler`] answers it. Any other request gets `None`: nothing
    /// is read from the store and nothing is to be written.
    pub fn handle<F>(&self, path: Option<&str>, fetch: F) -> (reply: Option<
        Result<StreamingJsonEncoder, StoreFailure>,
    >) where F: FnOnce(&C) -> Result<Vec<TimeRecord>, StoreFailure>
        requires
            forall|connection: &C| call_requires(fetch, (connection,)),
        ensures
            !names_times(path) ==> reply is None,
            names_times(path) ==> reply is Some && exists|
                connection: &C,
                fetched: Result<Vec<TimeRecord>, StoreFailure>,
            |
                call_ensures(fetch, (connection,), fetched) && answers(reply->0, fetched),
    {
        let text = match path {
            Some(text) => text,
            None => {
                return None;
            },
        };
        match route(text) {
            Route::Times => Some(times_handler(&self.store, fetch)),
            Route::Unmatched => None,
        }
    }
}

} // verus!
