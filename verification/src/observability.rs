//! Service-health state and the read-only status protocol served over it:
//! liveness, readiness, and a JSON snapshot of the persistence metrics.

use vstd::prelude::*;
use vstd::string::StringExecFns;
use crate::http::{
    json_escape, parse_request_path, render_response, spec_request_path, spec_response, HttpStatus,
};
use crate::text::{dec_seq, str_eq, u64_to_dec};

verus! {

/// The view of an optional string.
pub open spec fn opt_view(o: Option<String>) -> Option<Seq<char>> {
    match o {
        Some(s) => Some(s@),
        None => None,
    }
}

/// A character sequence as a JSON string literal: quoted and escaped.
pub open spec fn json_string(s: Seq<char>) -> Seq<char> {
    seq!['"'] + json_escape(s) + seq!['"']
}

/// A boolean as JSON.
pub open spec fn json_bool(b: bool) -> Seq<char> {
    if b {
        "true"@
    } else {
        "false"@
    }
}

/// An optional number as JSON: the number, or `null`.
pub open spec fn json_opt_number(v: Option<u64>) -> Seq<char> {
    match v {
        Some(n) => dec_seq(n as nat),
        None => "null"@,
    }
}

/// An optional string as JSON: a string literal, or `null`.
pub open spec fn json_opt_string(v: Option<Seq<char>>) -> Seq<char> {
    match v {
        Some(s) => json_string(s),
        None => "null"@,
    }
}

/// Point-in-time, immutable view of the health state. Produced on demand,
/// never cached.
pub struct ObservabilitySnapshot {
    pub version: String,
    pub world_id: String,
    pub storage_backend: String,
    pub storage_ready: bool,
    pub flush_count: usize,
    pub last_flush_at: Option<u64>,
    pub uptime_seconds: u64,
    pub storage_error: Option<String>,
}

/// The `/status` response body: the snapshot as one JSON object, fields in
/// declaration order.
pub open spec fn spec_status_body(s: &ObservabilitySnapshot) -> Seq<char> {
    "{\"version\":"@ + json_string(s.version@) + ",\"world_id\":"@ + json_string(s.world_id@)
        + ",\"storage_backend\":"@ + json_string(s.storage_backend@) + ",\"storage_ready\":"@
        + json_bool(s.storage_ready) + ",\"flush_count\":"@ + dec_seq(s.flush_count as nat)
        + ",\"last_flush_at\":"@ + json_opt_number(s.last_flush_at) + ",\"uptime_seconds\":"@
        + dec_seq(s.uptime_seconds as nat) + ",\"storage_error\":"@ + json_opt_string(
        opt_view(s.storage_error),
    ) + "}"@
}

/// Append a JSON string literal: a quote, the escaped text, a quote.
fn append_json_string(out: &mut String, s: &str)
    ensures
        final(out)@ == old(out)@ + json_string(s@),
{
    proof {
        reveal_strlit("\"");
    }
    out.append("\"");
    let escaped = crate::http::json_escape_str(s);
    out.append(escaped.as_str());
    out.append("\"");
    proof {
        assert(final(out)@ =~= old(out)@ + json_string(s@));
    }
}

/// Render the `/status` response body for a snapshot.
pub fn render_status_body(s: &ObservabilitySnapshot) -> (body: String)
    ensures
        body@ == spec_status_body(s),
{
    proof {
        reveal_strlit("{\"version\":");
        reveal_strlit(",\"world_id\":");
        reveal_strlit(",\"storage_backend\":");
        reveal_strlit(",\"storage_ready\":");
        reveal_strlit(",\"flush_count\":");
        reveal_strlit(",\"last_flush_at\":");
        reveal_strlit(",\"uptime_seconds\":");
        reveal_strlit(",\"storage_error\":");
        reveal_strlit("}");
        reveal_strlit("null");
        reveal_strlit("true");
        reveal_strlit("false");
    }
    let mut body = "{\"version\":".to_owned();
    append_json_string(&mut body, s.version.as_str());
    body.append(",\"world_id\":");
    append_json_string(&mut body, s.world_id.as_str());
    body.append(",\"storage_backend\":");
    append_json_string(&mut body, s.storage_backend.as_str());
    body.append(",\"storage_ready\":");
    if s.storage_ready {
        body.append("true");
    } else {
        body.append("false");
    }
    body.append(",\"flush_count\":");
    body.append(u64_to_dec(s.flush_count as u64).as_str());
    body.append(",\"last_flush_at\":");
    match s.last_flush_at {
        Some(n) => body.append(u64_to_dec(n).as_str()),
        None => body.append("null"),
    }
    body.append(",\"uptime_seconds\":");
    body.append(u64_to_dec(s.uptime_seconds).as_str());
    body.append(",\"storage_error\":");
    match &s.storage_error {
        Some(message) => append_json_string(&mut body, message.as_str()),
        None => body.append("null"),
    }
    body.append("}");
    proof {
        assert(body@ =~= spec_status_body(s));
    }
    body
}


/// The `/health` response body: liveness only.
pub open spec fn spec_health_body() -> Seq<char> {
    "{\"status\":\"ok\"}"@
}

/// The `/ready` response body for a readiness flag.
pub open spec fn spec_ready_body(ready: bool) -> Seq<char> {
    if ready {
        "{\"status\":\"ready\"}"@
    } else {
        "{\"status\":\"initializing\"}"@
    }
}

/// The response body for an unknown path.
pub open spec fn spec_missing_body() -> Seq<char> {
    "{\"status\":\"missing\"}"@
}

/// The status of the response to a request path: `/health` and `/status`
/// always succeed, `/ready` succeeds exactly when storage is ready, and
/// anything else is missing.
pub open spec fn spec_route_status(path: Seq<char>, ready: bool) -> HttpStatus {
    if path == "/health"@ {
        HttpStatus::Success
    } else if path == "/ready"@ {
        if ready {
            HttpStatus::Success
        } else {
            HttpStatus::ServiceUnavailable
        }
    } else if path == "/status"@ {
        HttpStatus::Success
    } else {
        HttpStatus::NotFound
    }
}

/// The body of the response to a request path.
pub open spec fn spec_route_body(path: Seq<char>, snap: &ObservabilitySnapshot) -> Seq<char> {
    if path == "/health"@ {
        spec_health_body()
    } else if path == "/ready"@ {
        spec_ready_body(snap.storage_ready)
    } else if path == "/status"@ {
        spec_status_body(snap)
    } else {
        spec_missing_body()
    }
}

/// Decide the response to one request path against a snapshot.
pub fn route(path: &str, snap: &ObservabilitySnapshot) -> (r: (HttpStatus, String))
    ensures
        r.0 == spec_route_status(path@, snap.storage_ready),
        r.1@ == spec_route_body(path@, snap),
{
    if str_eq(path, "/health") {
        (HttpStatus::Success, "{\"status\":\"ok\"}".to_owned())
    } else if str_eq(path, "/ready") {
        if snap.storage_ready {
            (HttpStatus::Success, "{\"status\":\"ready\"}".to_owned())
        } else {
            (HttpStatus::ServiceUnavailable, "{\"status\":\"initializing\"}".to_owned())
        }
    } else if str_eq(path, "/status") {
        (HttpStatus::Success, render_status_body(snap))
    } else {
        (HttpStatus::NotFound, "{\"status\":\"missing\"}".to_owned())
    }
}

/// Serve one request line against a snapshot: extract the path, decide
/// status and body, and render the full response with exact headers.
pub fn handle_request(request_line: &str, snap: &ObservabilitySnapshot) -> (resp: String)
    ensures
        resp@ == spec_response(
            spec_route_status(spec_request_path(request_line@), snap.storage_ready),
            spec_route_body(spec_request_path(request_line@), snap),
        ),
{
    let path = parse_request_path(request_line);
    let (status, body) = route(path.as_str(), snap);
    render_response(status, body.as_str())
}

/// How long the accept loop pauses between polls, in milliseconds, so that
/// a shutdown signal is observed with bounded latency.
pub const ACCEPT_POLL_MS: u64 = 20;

/// What one poll of the status server's listener produced: a connection, no
/// connection ready yet, or a listener failure.
#[derive(Clone, Copy, Debug, PartialEq, Eq, Structural)]
pub enum AcceptEvent {
    Accepted,
    NoneReady,
    Failed,
}

/// What the accept loop does next: serve the accepted connection, pause for
/// `ACCEPT_POLL_MS` and poll again, or stop.
#[derive(Clone, Copy, Debug, PartialEq, Eq, Structural)]
pub enum AcceptAction {
    Serve,
    Pause,
    Stop,
}

/// The accept loop's next step: a shutdown signal stops it whatever the poll
/// produced; otherwise a connection is served, an empty poll is retried
/// after a pause, and a listener failure stops it.
pub open spec fn spec_accept_step(shutdown: bool, event: AcceptEvent) -> AcceptAction {
    if shutdown {
        AcceptAction::Stop
    } else {
        match event {
            AcceptEvent::Accepted => AcceptAction::Serve,
            AcceptEvent::NoneReady => AcceptAction::Pause,
            AcceptEvent::Failed => AcceptAction::Stop,
        }
    }
}

/// Decide the accept loop's next step from the shutdown flag and the
/// outcome of one poll of the listener.
pub fn accept_step(shutdown: bool, event: AcceptEvent) -> (action: AcceptAction)
    ensures
        action == spec_accept_step(shutdown, event),
{
    if shutdown {
        AcceptAction::Stop
    } else {
        match event {
            AcceptEvent::Accepted => AcceptAction::Serve,
            AcceptEvent::NoneReady => AcceptAction::Pause,
            AcceptEvent::Failed => AcceptAction::Stop,
        }
    }
}

/// Health state written by the controller's owner and read by the status
/// server: liveness, readiness, and mirrored flush metrics. A recorded
/// storage error and readiness are mutually exclusive at every instant.
pub struct ObservabilityState {
    version: String,
    world_id: String,
    storage_backend: String,
    ready: bool,
    flush_count: usize,
    last_flush: Option<u64>,
    storage_error: Option<String>,
    start: std::time::Instant,
}

impl ObservabilityState {
    /// A recorded error always comes with readiness off.
    #[verifier::type_invariant]
    spec fn wf(&self) -> bool {
        self.storage_error is Some ==> !self.ready
    }

    /// The served version string.
    pub closed spec fn spec_version(&self) -> Seq<char> {
        self.version@
    }

    /// The served world identifier.
    pub closed spec fn spec_world_id(&self) -> Seq<char> {
        self.world_id@
    }

    /// The served storage backend name.
    pub closed spec fn spec_storage_backend(&self) -> Seq<char> {
        self.storage_backend@
    }

    /// The readiness flag.
    pub closed spec fn spec_ready(&self) -> bool {
        self.ready
    }

    /// The mirrored flush counter.
    pub closed spec fn spec_flush_count(&self) -> usize {
        self.flush_count
    }

    /// The mirrored wall-clock second of the last flush, if any.
    pub closed spec fn spec_last_flush(&self) -> Option<u64> {
        self.last_flush
    }

    /// The recorded storage error, if any.
    pub closed spec fn spec_error(&self) -> Option<Seq<char>> {
        opt_view(self.storage_error)
    }

    /// Fresh health state: not ready, nothing flushed, no error recorded.
    pub fn new(version: String, world_id: String, storage_backend: String) -> (st:
        ObservabilityState)
        ensures
            st.spec_version() == version@,
            st.spec_world_id() == world_id@,
            st.spec_storage_backend() == storage_backend@,
            !st.spec_ready(),
            st.spec_flush_count() == 0,
            st.spec_last_flush() is None,
            st.spec_error() is None,
    {
        ObservabilityState {
            version,
            world_id,
            storage_backend,
            ready: false,
            flush_count: 0,
            last_flush: None,
            storage_error: None,
            start: std::time::Instant::now(),
        }
    }

    /// Set the readiness flag. Marking ready clears any recorded error:
    /// readiness and a recorded error are mutually exclusive.
    pub fn mark_storage_ready(&mut self, ready: bool)
        ensures
            final(self).spec_ready() == ready,
            ready ==> final(self).spec_error() is None,
            !ready ==> final(self).spec_error() == old(self).spec_error(),
            final(self).spec_version() == old(self).spec_version(),
            final(self).spec_world_id() == old(self).spec_world_id(),
            final(self).spec_storage_backend() == old(self).spec_storage_backend(),
            final(self).spec_flush_count() == old(self).spec_flush_count(),
            final(self).spec_last_flush() == old(self).spec_last_flush(),
    {
        proof {
            use_type_invariant(&*self);
        }
        if ready {
            self.storage_error = None;
        }
        self.ready = ready;
    }

    /// The readiness flag.
    pub fn storage_ready(&self) -> (r: bool)
        ensures
            r == self.spec_ready(),
    {
        self.ready
    }

    /// Overwrite the mirrored flush counter; overwrite the mirrored last
    /// flush instant if a new one is given; clear any recorded error (a
    /// successful flush supersedes a prior failure).
    pub fn note_flush(&mut self, flush_count: usize, last_flush: Option<u64>)
        ensures
            final(self).spec_flush_count() == flush_count,
            last_flush is Some ==> final(self).spec_last_flush() == last_flush,
            last_flush is None ==> final(self).spec_last_flush() == old(self).spec_last_flush(),
            final(self).spec_error() is None,
            final(self).spec_ready() == old(self).spec_ready(),
            final(self).spec_version() == old(self).spec_version(),
            final(self).spec_world_id() == old(self).spec_world_id(),
            final(self).spec_storage_backend() == old(self).spec_storage_backend(),
    {
        proof {
            use_type_invariant(&*self);
        }
        self.flush_count = flush_count;
        if let Some(value) = last_flush {
            self.last_flush = Some(value);
        }
        self.storage_error = None;
    }

    /// Record an error: atomically mark readiness off and remember the
    /// message, superseding any prior error.
    pub fn note_error(&mut self, message: String)
        ensures
            !final(self).spec_ready(),
            final(self).spec_error() == Some(message@),
            final(self).spec_flush_count() == old(self).spec_flush_count(),
            final(self).spec_last_flush() == old(self).spec_last_flush(),
            final(self).spec_version() == old(self).spec_version(),
            final(self).spec_world_id() == old(self).spec_world_id(),
            final(self).spec_storage_backend() == old(self).spec_storage_backend(),
    {
        proof {
            use_type_invariant(&*self);
        }
        self.ready = false;
        self.storage_error = Some(message);
    }

    /// Compose an immutable snapshot of the current values; the uptime is
    /// read from the monotonic clock. A snapshot never shows readiness
    /// together with a recorded error.
    pub fn snapshot(&self) -> (snap: ObservabilitySnapshot)
        ensures
            snap.version@ == self.spec_version(),
            snap.world_id@ == self.spec_world_id(),
            snap.storage_backend@ == self.spec_storage_backend(),
            snap.storage_ready == self.spec_ready(),
            snap.flush_count == self.spec_flush_count(),
            snap.last_flush_at == self.spec_last_flush(),
            opt_view(snap.storage_error) == self.spec_error(),
            snap.storage_error is Some ==> !snap.storage_ready,
    {
        proof {
            use_type_invariant(&*self);
        }
        let uptime = self.start.elapsed().as_secs();
        ObservabilitySnapshot {
            version: self.version.clone(),
            world_id: self.world_id.clone(),
            storage_backend: self.storage_backend.clone(),
            storage_ready: self.ready,
            flush_count: self.flush_count,
            last_flush_at: self.last_flush,
            uptime_seconds: uptime,
            storage_error: match &self.storage_error {
                Some(message) => Some(message.clone()),
                None => None,
            },
        }
    }

    /// The served version string.
    pub fn version(&self) -> (v: &str)
        ensures
            v@ == self.spec_version(),
    {
        self.version.as_str()
    }

    /// The served world identifier.
    pub fn world_id(&self) -> (w: &str)
        ensures
            w@ == self.spec_world_id(),
    {
        self.world_id.as_str()
    }

    /// The served storage backend name.
    pub fn storage_backend(&self) -> (b: &str)
        ensures
            b@ == self.spec_storage_backend(),
    {
        self.storage_backend.as_str()
    }

}

} // verus!
