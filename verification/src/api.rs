//! The request-handling core: the error adapter and the two handlers'
//! decisions, stated as functions from query outcomes to HTTP replies.
//!
//! Each body spec function fixes the exact character sequence of a reply,
//! so a caller knows the full JSON text, not merely its shape.

use vstd::prelude::*;
use vstd::string::StringExecFns;

use crate::db::DemoRecord;
use crate::db::DemoStore;
use crate::db::READ_BACK_LIMIT;
use crate::db::demo_entry_name;
use crate::db::spec_recent;
use crate::json::dec_int;
use crate::json::json_string;
use crate::json::append_json_string;
use crate::json::render_i64;

verus! {

/// The service's internal error taxonomy. Every kind collapses to one
/// HTTP status externally, but the distinction is kept for callers.
#[derive(Clone, Copy, PartialEq, Eq, Structural, Debug)]
pub enum ErrorKind {
    /// A required configuration value is missing or empty; fatal at startup.
    Configuration,
    /// The store is unreachable or a statement against it failed.
    Infrastructure,
    /// Any other failure while handling a request.
    Internal,
}

/// An internal failure: a kind and the message shown for it.
///
/// Wrapping with [`AppError::context`] replaces the shown message, as the
/// outermost annotation of a wrapped error is the one a response displays.
pub struct AppError {
    pub kind: ErrorKind,
    pub message: String,
}

/// A transport-level reply: a status code and the full body text.
pub struct HttpReply {
    pub status: u16,
    pub body: String,
}

/// The body of every error reply: status text and the error's message.
pub open spec fn error_body_of(error: Seq<char>, message: Seq<char>) -> Seq<char> {
    "{\"error\":"@ + json_string(error) + ",\"message\":"@ + json_string(message) + seq!['}']
}

/// The uniform error body: a fixed status text and the error's message.
pub open spec fn error_body(message: Seq<char>) -> Seq<char> {
    error_body_of("Internal server error"@, message)
}

/// The body of a health reply: a status text and a timestamp.
pub open spec fn health_body_of(status: Seq<char>, timestamp: Seq<char>) -> Seq<char> {
    "{\"status\":"@ + json_string(status) + ",\"timestamp\":"@ + json_string(timestamp)
        + seq!['}']
}

/// The body of a successful health reply at a given timestamp.
pub open spec fn health_body(timestamp: Seq<char>) -> Seq<char> {
    health_body_of("All systems operational"@, timestamp)
}

/// One record rendered as a two-element array: id, then name.
pub open spec fn record_json(r: DemoRecord) -> Seq<char> {
    seq!['['] + dec_int(r.id as int) + seq![','] + json_string(r.name@) + seq![']']
}

/// The records rendered in order, comma separated.
pub open spec fn records_json(rs: Seq<DemoRecord>) -> Seq<char>
    decreases rs.len(),
{
    if rs.len() == 0 {
        Seq::empty()
    } else if rs.len() == 1 {
        record_json(rs[0])
    } else {
        records_json(rs.drop_last()) + seq![','] + record_json(rs.last())
    }
}

/// The body of a demo reply: a message, the read-back records, a timestamp.
pub open spec fn demo_body_of(
    message: Seq<char>,
    rs: Seq<DemoRecord>,
    timestamp: Seq<char>,
) -> Seq<char> {
    "{\"message\":"@ + json_string(message) + ",\"records\":["@ + records_json(rs) + "],\"timestamp\":"@
        + json_string(timestamp) + seq!['}']
}

/// The body of a successful demo reply at a given timestamp.
pub open spec fn demo_body(rs: Seq<DemoRecord>, timestamp: Seq<char>) -> Seq<char> {
    demo_body_of("Database demo successful"@, rs, timestamp)
}

/// The shape of an error reply's body, as the documentation declares it.
pub struct ErrorResponse {
    pub error: String,
    pub message: String,
}

/// The shape of a health reply's body, as the documentation declares it.
pub struct HealthResponse {
    pub status: String,
    pub timestamp: String,
}

/// The shape of a demo reply's body, as the documentation declares it.
pub struct DbDemoResponse {
    pub message: String,
    pub records: Vec<DemoRecord>,
    pub timestamp: String,
}

impl ErrorResponse {
    /// The exact JSON text of this response.
    pub fn to_json(&self) -> (r: String)
        ensures
            r@ == error_body_of(self.error@, self.message@),
    {
        let mut out = String::new();
        proof {
            reveal_strlit("{\"error\":");
            reveal_strlit(",\"message\":");
            reveal_strlit("}");
        }
        out.append("{\"error\":");
        append_json_string(&mut out, self.error.as_str());
        out.append(",\"message\":");
        append_json_string(&mut out, self.message.as_str());
        out.append("}");
        proof {
            assert("}"@ =~= seq!['}']);
            assert(out@ =~= error_body_of(self.error@, self.message@));
        }
        out
    }
}

impl HealthResponse {
    /// The exact JSON text of this response.
    pub fn to_json(&self) -> (r: String)
        ensures
            r@ == health_body_of(self.status@, self.timestamp@),
    {
        let mut out = String::new();
        proof {
            reveal_strlit("{\"status\":");
            reveal_strlit(",\"timestamp\":");
            reveal_strlit("}");
        }
        out.append("{\"status\":");
        append_json_string(&mut out, self.status.as_str());
        out.append(",\"timestamp\":");
        append_json_string(&mut out, self.timestamp.as_str());
        out.append("}");
        proof {
            assert("}"@ =~= seq!['}']);
            assert(out@ =~= health_body_of(self.status@, self.timestamp@));
        }
        out
    }
}

impl DbDemoResponse {
    /// The exact JSON text of this response.
    pub fn to_json(&self) -> (r: String)
        ensures
            r@ == demo_body_of(self.message@, self.records@, self.timestamp@),
    {
        let mut out = String::new();
        proof {
            reveal_strlit("{\"message\":");
            reveal_strlit(",\"records\":[");
            reveal_strlit("],\"timestamp\":");
            reveal_strlit("}");
        }
        out.append("{\"message\":");
        append_json_string(&mut out, self.message.as_str());
        out.append(",\"records\":[");
        append_records(&mut out, &self.records);
        out.append("],\"timestamp\":");
        append_json_string(&mut out, self.timestamp.as_str());
        out.append("}");
        proof {
            assert("}"@ =~= seq!['}']);
            assert(out@ =~= demo_body_of(self.message@, self.records@, self.timestamp@));
        }
        out
    }
}

/// Appends the records rendered in order, comma separated.
fn append_records(out: &mut String, rs: &Vec<DemoRecord>)
    ensures
        final(out)@ == old(out)@ + records_json(rs@),
{
    let n: usize = rs.len();
    let mut i: usize = 0;
    while i < n
        invariant
            i <= n,
            n == rs@.len(),
            out@ =~= old(out)@ + records_json(rs@.subrange(0, i as int)),
        decreases n - i,
    {
        if i > 0 {
            proof { reveal_strlit(","); }
            out.append(",");
            proof {
                assert(","@ =~= seq![',']);
            }
        }
        proof {
            reveal_strlit("[");
            reveal_strlit(",");
        }
        out.append("[");
        let digits = render_i64(rs[i].id);
        out.append(digits.as_str());
        out.append(",");
        append_json_string(out, rs[i].name.as_str());
        proof { reveal_strlit("]"); }
        out.append("]");
        proof {
            assert("["@ =~= seq!['[']);
            assert(","@ =~= seq![',']);
            assert("]"@ =~= seq![']']);
            let t = rs@.subrange(0, i as int + 1);
            assert(t.drop_last() =~= rs@.subrange(0, i as int));
            assert(t.last() == rs@[i as int]);
            if i == 0 {
                assert(records_json(t) == record_json(rs@[0]));
            } else {
                assert(records_json(t) == records_json(rs@.subrange(0, i as int)) + seq![',']
                    + record_json(rs@[i as int]));
            }
            assert(out@ =~= old(out)@ + records_json(t));
        }
        i = i + 1;
    }
    proof {
        assert(rs@.subrange(0, n as int) =~= rs@);
    }
}

impl AppError {
    /// A fresh error of the given kind, shown with the given message.
    pub fn new(kind: ErrorKind, message: String) -> (r: AppError)
        ensures
            r.kind == kind,
            r.message@ == message@,
    {
        AppError { kind, message }
    }

    /// Wraps the error with an annotation; the annotation becomes the
    /// message shown, as with a context-wrapped report.
    pub fn context(self, note: &str) -> (r: AppError)
        ensures
            r.kind == self.kind,
            r.message@ == note@,
    {
        AppError { kind: self.kind, message: String::from_str(note) }
    }

    /// The message an error reply would show for this error.
    pub fn message(&self) -> (r: &str)
        ensures
            r@ == self.message@,
    {
        self.message.as_str()
    }

    /// The error adapter: every internal failure becomes a 500 reply whose
    /// body names the uniform status text and this error's message.
    pub fn error_response(&self) -> (r: HttpReply)
        ensures
            r.status == 500,
            r.body@ == error_body(self.message@),
    {
        let resp = ErrorResponse {
            error: String::from_str("Internal server error"),
            message: self.message.clone(),
        };
        HttpReply { status: 500, body: resp.to_json() }
    }
}

/// Relies on chrono: the current time read by `Utc::now` from the system
/// clock and rendered by `DateTime::to_rfc3339`. The value depends on the
/// clock, so nothing is promised of it.
#[verifier::external_body]
fn now_rfc3339() -> (r: String) {
    chrono::Utc::now().to_rfc3339()
}

/// Maps the liveness probe's outcome to a status text: the fixed
/// operational text on success, the probe's failure wrapped otherwise.
pub fn check_system_health(ping: Result<(), AppError>) -> (r: Result<String, AppError>)
    ensures
        ping is Ok ==> r is Ok && r->Ok_0@ == "All systems operational"@,
        ping is Err ==> r is Err && r->Err_0.kind == ping->Err_0.kind && r->Err_0.message@
            == "Database connection failed"@,
{
    match ping {
        Ok(()) => Ok(String::from_str("All systems operational")),
        Err(e) => Err(e.context("Database connection failed")),
    }
}

/// The health handler's decision at a given timestamp: 200 with the
/// operational status when the store answered the liveness probe, else the
/// uniform 500 body for a failed health check.
pub fn health_reply_at(ping: Result<(), AppError>, timestamp: &str) -> (r: HttpReply)
    ensures
        ping is Ok ==> r.status == 200 && r.body@ == health_body(timestamp@),
        ping is Err ==> r.status == 500 && r.body@ == error_body("Health check failed"@),
{
    match check_system_health(ping) {
        Ok(status) => {
            let resp = HealthResponse { status, timestamp: String::from_str(timestamp) };
            HttpReply { status: 200, body: resp.to_json() }
        },
        Err(e) => e.context("Health check failed").error_response(),
    }
}

/// The health handler: as [`health_reply_at`], stamped with the current time.
pub fn health_reply(ping: Result<(), AppError>) -> (r: HttpReply)
    ensures
        ping is Ok ==> r.status == 200 && (exists|ts: Seq<char>| r.body@ == #[trigger] health_body(
            ts,
        )),
        ping is Err ==> r.status == 500 && r.body@ == error_body("Health check failed"@),
{
    let ts = now_rfc3339();
    let r = health_reply_at(ping, ts.as_str());
    proof {
        if ping is Ok {
            assert(r.body@ == health_body(ts@));
        }
    }
    r
}

/// The demo handler's decision at a given timestamp: a failed insert or a
/// failed read-back each yield the uniform 500 body for that step; otherwise
/// 200 with the read-back records and the timestamp.
pub fn db_demo_reply_at(
    insert: Result<(), AppError>,
    fetched: Result<Vec<DemoRecord>, AppError>,
    timestamp: &str,
) -> (r: HttpReply)
    ensures
        insert is Err ==> r.status == 500 && r.body@ == error_body(
            "Failed to insert demo record"@,
        ),
        insert is Ok && fetched is Err ==> r.status == 500 && r.body@ == error_body(
            "Failed to fetch demo records"@,
        ),
        insert is Ok && fetched is Ok ==> r.status == 200 && r.body@ == demo_body(
            fetched->Ok_0@,
            timestamp@,
        ),
{
    match insert {
        Err(e) => e.context("Failed to insert demo record").error_response(),
        Ok(()) => match fetched {
            Err(e) => e.context("Failed to fetch demo records").error_response(),
            Ok(records) => {
                let resp = DbDemoResponse {
                    message: String::from_str("Database demo successful"),
                    records,
                    timestamp: String::from_str(timestamp),
                };
                HttpReply { status: 200, body: resp.to_json() }
            },
        },
    }
}

/// The demo handler: as [`db_demo_reply_at`], stamped with the current time.
pub fn db_demo_reply(
    insert: Result<(), AppError>,
    fetched: Result<Vec<DemoRecord>, AppError>,
) -> (r: HttpReply)
    ensures
        insert is Err ==> r.status == 500 && r.body@ == error_body(
            "Failed to insert demo record"@,
        ),
        insert is Ok && fetched is Err ==> r.status == 500 && r.body@ == error_body(
            "Failed to fetch demo records"@,
        ),
        insert is Ok && fetched is Ok ==> r.status == 200 && (exists|ts: Seq<char>|
            r.body@ == #[trigger] demo_body(fetched->Ok_0@, ts)),
{
    let ts = now_rfc3339();
    let ghost both_ok = insert is Ok && fetched is Ok;
    let ghost rs = if fetched is Ok { fetched->Ok_0@ } else { Seq::empty() };
    let r = db_demo_reply_at(insert, fetched, ts.as_str());
    proof {
        if both_ok {
            assert(r.body@ == demo_body(rs, ts@));
        }
    }
    r
}

/// The demo endpoint run against the in-library table model: one insert of
/// the placeholder name, then the ten-at-most read-back, then the
/// successful reply. Each call grows the history by exactly one row and
/// replies 200 with the newest min(N, 10) rows, the most recent first; so
/// N sequential calls on a fresh model read back min(N, 10) records.
pub fn db_demo_model_call(store: &mut DemoStore, timestamp: &str) -> (r: HttpReply)
    requires
        old(store).wf(),
        old(store).spec_next_id() <= i64::MAX as int,
    ensures
        final(store).wf(),
        final(store).records@.len() == old(store).records@.len() + 1,
        final(store).records@.subrange(0, old(store).records@.len() as int) == old(
            store,
        ).records@,
        r.status == 200,
        r.body@ == demo_body(
            spec_recent(final(store).records@, READ_BACK_LIMIT as int),
            timestamp@,
        ),
{
    let name = String::from_str(demo_entry_name());
    let _id = store.insert(name);
    let records = store.read_recent(READ_BACK_LIMIT);
    proof {
        assert(store.records@.subrange(0, old(store).records@.len() as int) =~= old(
            store,
        ).records@);
    }
    db_demo_reply_at(Ok(()), Ok(records), timestamp)
}

} // verus!
