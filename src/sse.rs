//! The Server-Sent Events transport: session ids and the endpoint event on
//! the server, routing of the POST back-channel, and on the client the
//! extraction of the endpoint and of the URL that messages are posted to.
use vstd::prelude::*;
use crate::json::owned;
use crate::registry::Registry;

verus! {

/// Seconds between two `ping` notifications on an SSE stream.
pub const PING_INTERVAL_SECS: u64 = 15;

/// Capacity of the outbound channel of one SSE session.
pub const SESSION_CHANNEL_CAPACITY: usize = 100;

/// How many times, 100 ms apart, a client waits for the endpoint event.
pub const ENDPOINT_WAIT_ATTEMPTS: u32 = 10;

/// The path that precedes the session id in the endpoint event.
pub open spec fn endpoint_prefix() -> Seq<char> {
    "/message?sessionId="@
}

pub open spec fn is_lower_hex(c: char) -> bool {
    ('0' <= c && c <= '9') || ('a' <= c && c <= 'f')
}

/// A UUID in its 36-character lower-case hyphenated form.
pub open spec fn is_session_id(s: Seq<char>) -> bool {
    &&& s.len() == 36
    &&& forall|i: int|
        0 <= i < 36 ==> if i == 8 || i == 13 || i == 18 || i == 23 {
            #[trigger] s[i] == '-'
        } else {
            is_lower_hex(s[i])
        }
}

/// Relies on uuid::Uuid::new_v4, a random version-4 UUID, and on its
/// `Display`, which writes the lower-case hyphenated form.
#[verifier::external_body]
fn new_session_id() -> (r: String)
    ensures
        is_session_id(r@),
{
    uuid::Uuid::new_v4().to_string()
}

/// The data of an endpoint event: `/message?sessionId=` and then 36
/// characters, each a lower-case hex digit or `-`.
pub open spec fn is_endpoint_data(d: Seq<char>) -> bool {
    &&& d.len() == endpoint_prefix().len() + 36
    &&& d.subrange(0, endpoint_prefix().len() as int) == endpoint_prefix()
    &&& forall|i: int|
        endpoint_prefix().len() <= i < d.len() ==> is_lower_hex(#[trigger] d[i]) || d[i] == '-'
}

/// The path at which the session `id` receives its messages.
pub fn endpoint_path(id: &str) -> (r: String)
    ensures
        r@ == endpoint_prefix() + id@,
{
    owned("/message?sessionId=").concat(id)
}

/// One event of an SSE stream.
pub open spec fn sse_event_text(event: Seq<char>, data: Seq<char>) -> Seq<char> {
    "event: "@ + event + "\ndata: "@ + data + "\n\n"@
}

/// Writes one event of an SSE stream.
pub fn sse_event(event: &str, data: &str) -> (r: String)
    ensures
        r@ == sse_event_text(event@, data@),
{
    owned("event: ").concat(event).concat("\ndata: ").concat(data).concat("\n\n")
}

/// The event that carries a serialized message.
pub fn message_event(json: &str) -> (r: String)
    ensures
        r@ == sse_event_text("message"@, json@),
{
    sse_event("message", json)
}

/// The endpoint path of a session id has the advertised shape.
pub proof fn lemma_endpoint_data(id: Seq<char>)
    requires
        is_session_id(id),
    ensures
        is_endpoint_data(endpoint_prefix() + id),
{
    reveal_strlit("/message?sessionId=");
    let d = endpoint_prefix() + id;
    assert(d.subrange(0, endpoint_prefix().len() as int) =~= endpoint_prefix());
    assert forall|i: int| endpoint_prefix().len() <= i < d.len() implies is_lower_hex(#[trigger] d[i]) || d[i] == '-' by {
        let k = i - endpoint_prefix().len();
        assert(d[i] == id[k]);
        if k == 8 || k == 13 || k == 18 || k == 23 {
            assert(id[k] == '-');
        } else {
            assert(is_lower_hex(id[k]));
        }
    }
}

/// The query of a POST to the message endpoint.
#[derive(Debug, Clone, PartialEq)]
pub struct MessageQuery {
    /// The session the message is for.
    pub session_id: Option<String>,
}

/// How a POST to the message endpoint ends.
#[derive(Debug, Clone, PartialEq)]
pub enum PostOutcome {
    /// The message was handed to its session.
    Accepted,
    /// No `sessionId` in the query.
    MissingSessionId,
    /// No session has this id.
    UnknownSession(String),
    /// The session could not take the message.
    Failed,
}

impl PostOutcome {
    /// The HTTP status of the answer.
    pub fn status(&self) -> (r: u16)
        ensures
            r == match self {
                PostOutcome::Accepted => 202u16,
                PostOutcome::MissingSessionId => 400u16,
                PostOutcome::UnknownSession(_) => 404u16,
                PostOutcome::Failed => 500u16,
            },
    {
        match self {
            PostOutcome::Accepted => 202,
            PostOutcome::MissingSessionId => 400,
            PostOutcome::UnknownSession(_) => 404,
            PostOutcome::Failed => 500,
        }
    }

    /// The body of the answer.
    pub fn body(&self) -> (r: String)
        ensures
            r@ == match self {
                PostOutcome::MissingSessionId => "Session ID not specified"@,
                PostOutcome::UnknownSession(id) => "Session "@ + id@ + " not found"@,
                _ => Seq::<char>::empty(),
            },
    {
        match self {
            PostOutcome::MissingSessionId => owned("Session ID not specified"),
            PostOutcome::UnknownSession(id) => owned("Session ").concat(id.as_str()).concat(" not found"),
            _ => String::new(),
        }
    }
}

/// The sessions of an SSE server, keyed by session id; `S` is what feeds a
/// session's event stream.
pub struct SseSessions<S> {
    sessions: Registry<S>,
}

impl<S> SseSessions<S> {
    pub closed spec fn table(&self) -> Registry<S> {
        self.sessions
    }

    pub open spec fn wf(&self) -> bool {
        self.table().wf()
    }

    pub fn new() -> (r: SseSessions<S>)
        ensures
            r.wf(),
            forall|k: Seq<char>| r.table().value_of(k) is None,
    {
        SseSessions { sessions: Registry::new() }
    }

    /// Opens a session fed by `session`: a fresh id, registered, and the
    /// endpoint event that must be the first event of its stream.
    pub fn open_session(&mut self, session: S) -> (r: (String, String))
        requires
            old(self).wf(),
        ensures
            final(self).wf(),
            is_session_id(r.0@),
            final(self).table().value_of(r.0@) == Some(session),
            forall|k: Seq<char>| k != r.0@ ==> final(self).table().value_of(k) == old(self).table().value_of(k),
            r.1@ == sse_event_text("endpoint"@, endpoint_prefix() + r.0@),
            is_endpoint_data(endpoint_prefix() + r.0@),
    {
        let id = new_session_id();
        let path = endpoint_path(id.as_str());
        let event = sse_event("endpoint", path.as_str());
        proof {
            lemma_endpoint_data(id@);
        }
        let key = id.clone();
        self.sessions.insert(key, session);
        (id, event)
    }

    /// The session `id`, if it is open.
    pub fn get_session(&self, id: &String) -> (r: Option<&S>)
        ensures
            match r {
                Some(s) => self.table().value_of(id@) == Some(*s),
                None => self.table().value_of(id@) is None,
            },
    {
        self.sessions.get(id)
    }

    /// Where a POST goes: to the session it names, or to an error answer.
    pub fn route_post(&self, session_id: Option<&String>) -> (r: Result<&S, PostOutcome>)
        ensures
            match session_id {
                None => r == Err::<&S, PostOutcome>(PostOutcome::MissingSessionId),
                Some(id) => match r {
                    Ok(s) => self.table().value_of(id@) == Some(*s),
                    Err(o) => self.table().value_of(id@) is None && o == PostOutcome::UnknownSession(*id),
                },
            },
    {
        match session_id {
            None => Err(PostOutcome::MissingSessionId),
            Some(id) => match self.sessions.get(id) {
                Some(s) => Ok(s),
                None => Err(PostOutcome::UnknownSession(id.clone())),
            },
        }
    }
}

/// First position at or after `from` that holds `c`.
pub open spec fn first_from(s: Seq<char>, c: char, from: int) -> Option<int>
    decreases s.len() - from,
{
    if from < 0 || from >= s.len() {
        None
    } else if s[from] == c {
        Some(from)
    } else {
        first_from(s, c, from + 1)
    }
}

/// `p` occurs in `s` at position `i`.
pub open spec fn occurs_at(s: Seq<char>, p: Seq<char>, i: int) -> bool {
    0 <= i && i + p.len() <= s.len() && s.subrange(i, i + p.len()) == p
}

/// First position at or after `from` where `p` occurs.
pub open spec fn first_occurrence(s: Seq<char>, p: Seq<char>, from: int) -> Option<int>
    decreases s.len() + 1 - from,
{
    if from < 0 || from + p.len() > s.len() {
        None
    } else if occurs_at(s, p, from) {
        Some(from)
    } else {
        first_occurrence(s, p, from + 1)
    }
}

/// `s` without every leading repetition of `p`.
pub open spec fn strip_prefixes(s: Seq<char>, p: Seq<char>) -> Seq<char>
    decreases s.len(),
{
    if p.len() > 0 && occurs_at(s, p, 0) {
        strip_prefixes(s.subrange(p.len() as int, s.len() as int), p)
    } else {
        s
    }
}

/// Scheme and host of a URL: everything before the first `/` that follows
/// `://` (or before the first `/` when there is no scheme).
pub open spec fn base_url_of(u: Seq<char>) -> Seq<char> {
    let start = match first_occurrence(u, "://"@, 0) {
        Some(i) => i + 3,
        None => 0,
    };
    let end = match first_from(u, '/', start) {
        Some(e) => e,
        None => u.len() as int,
    };
    u.subrange(0, end)
}

/// The endpoint path advertised in an endpoint event: scheme and host, if
/// any, are cut off; data with no `/` is taken as it is.
pub open spec fn endpoint_of(data: Seq<char>) -> Seq<char> {
    let t = strip_prefixes(strip_prefixes(data, "http://"@), "https://"@);
    match first_from(t, '/', 0) {
        Some(i) => t.subrange(i, t.len() as int),
        None => data,
    }
}

pub fn find_char_from(s: &str, c: char, from: usize) -> (r: Option<usize>)
    ensures
        match r {
            Some(i) => first_from(s@, c, from as int) == Some(i as int),
            None => first_from(s@, c, from as int) is None,
        },
{
    let n = s.unicode_len();
    let mut i = from;
    while i < n
        invariant
            n == s@.len(),
            from <= i,
            first_from(s@, c, from as int) == first_from(s@, c, i as int),
        decreases n - i,
    {
        if s.get_char(i) == c {
            return Some(i);
        }
        i = i + 1;
    }
    None
}

fn occurs_at_exec(s: &str, p: &str, i: usize) -> (r: bool)
    ensures
        r == occurs_at(s@, p@, i as int),
{
    let n = s.unicode_len();
    let m = p.unicode_len();
    if i > n || m > n - i {
        return false;
    }
    let mut k: usize = 0;
    while k < m
        invariant
            n == s@.len(),
            m == p@.len(),
            i + m <= n,
            k <= m,
            forall|j: int| 0 <= j < k ==> s@[i + j] == p@[j],
        decreases m - k,
    {
        if s.get_char(i + k) != p.get_char(k) {
            assert(s@.subrange(i as int, i + m)[k as int] != p@[k as int]);
            return false;
        }
        k = k + 1;
    }
    assert(s@.subrange(i as int, i + m) =~= p@);
    true
}

fn find_str(s: &str, p: &str) -> (r: Option<usize>)
    ensures
        match r {
            Some(i) => first_occurrence(s@, p@, 0) == Some(i as int),
            None => first_occurrence(s@, p@, 0) is None,
        },
{
    let n = s.unicode_len();
    let m = p.unicode_len();
    if m > n {
        return None;
    }
    let mut i: usize = 0;
    while i <= n - m
        invariant
            n == s@.len(),
            m == p@.len(),
            m <= n,
            first_occurrence(s@, p@, 0) == first_occurrence(s@, p@, i as int),
        decreases n - m + 1 - i,
    {
        if occurs_at_exec(s, p, i) {
            return Some(i);
        }
        if i == n - m {
            assert(first_occurrence(s@, p@, i as int + 1) is None);
            return None;
        }
        i = i + 1;
    }
    None
}

pub proof fn lemma_first_occurrence_bounds(s: Seq<char>, p: Seq<char>, from: int)
    ensures
        first_occurrence(s, p, from) matches Some(i) ==> from <= i && occurs_at(s, p, i),
    decreases s.len() + 1 - from,
{
    if !(from < 0 || from + p.len() > s.len()) && !occurs_at(s, p, from) {
        lemma_first_occurrence_bounds(s, p, from + 1);
    }
}

fn strip_all<'a>(s: &'a str, p: &str) -> (r: &'a str)
    ensures
        r@ == strip_prefixes(s@, p@),
{
    let m = p.unicode_len();
    if m == 0 {
        return s;
    }
    let mut t = s;
    while occurs_at_exec(t, p, 0)
        invariant
            m == p@.len(),
            m > 0,
            strip_prefixes(s@, p@) == strip_prefixes(t@, p@),
        decreases t@.len(),
    {
        let n = t.unicode_len();
        t = t.substring_char(m, n);
    }
    t
}

/// Scheme and host of `server_url`.
pub fn base_url(server_url: &str) -> (r: String)
    ensures
        r@ == base_url_of(server_url@),
{
    let n = server_url.unicode_len();
    let start: usize = match find_str(server_url, "://") {
        Some(i) => {
            proof {
                reveal_strlit("://");
                lemma_first_occurrence_bounds(server_url@, "://"@, 0);
            }
            i + 3
        },
        None => 0,
    };
    let end = match find_char_from(server_url, '/', start) {
        Some(e) => e,
        None => server_url.unicode_len(),
    };
    proof {
        reveal_strlit("://");
        if let Some(e) = first_from(server_url@, '/', start as int) {
            lemma_first_from_bounds(server_url@, '/', start as int);
        }
    }
    owned(server_url.substring_char(0, end))
}

pub proof fn lemma_first_from_bounds(s: Seq<char>, c: char, from: int)
    ensures
        first_from(s, c, from) matches Some(i) ==> from <= i < s.len() && s[i] == c,
    decreases s.len() - from,
{
    if 0 <= from < s.len() && s[from] != c {
        lemma_first_from_bounds(s, c, from + 1);
    }
}

/// The URL that messages are posted to: the scheme and host of
/// `server_url` followed by the advertised endpoint path.
pub fn post_url(server_url: &str, endpoint: &str) -> (r: String)
    ensures
        r@ == base_url_of(server_url@) + endpoint@,
{
    base_url(server_url).concat(endpoint)
}

/// The endpoint path carried by the data of an endpoint event.
pub fn session_endpoint(data: &str) -> (r: String)
    ensures
        r@ == endpoint_of(data@),
{
    let t = strip_all(strip_all(data, "http://"), "https://");
    match find_char_from(t, '/', 0) {
        Some(i) => {
            proof {
                lemma_first_from_bounds(t@, '/', 0);
            }
            owned(t.substring_char(i, t.unicode_len()))
        },
        None => owned(data),
    }
}

/// The value of the `Authorization` header for a bearer token.
pub fn bearer_header(token: &str) -> (r: String)
    ensures
        r@ == "Bearer "@ + token@,
{
    owned("Bearer ").concat(token)
}

} // verus!
