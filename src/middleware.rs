//! Decisions of the request-context middleware: how bodies and headers are
//! rendered in log lines, which headers the response gets, and the generic
//! answer when rebuilding a request or response fails.
use crate::context::{
    keys_unique, tags_view, upsert_tag, chosen_trace_id, create_request_context, extract_or_generate_trace_id, is_header_char,
    is_lower_hex, is_rfc3339_char, is_rfc3339_text, is_trace_id_format, now_rfc3339, opt_view,
    well_formed_trace_id, RequestContext,
};
use crate::json::{json_quote, json_quoted_of, json_text, json_text_of};
use crate::taxonomy::{digit_char, digit_str};
use vstd::prelude::*;
use vstd::utf8::{decode_utf8, valid_utf8};

verus! {

pub const TRACE_ID_HEADER: &'static str = "x-b3-traceid";

pub const TIMESTAMP_HEADER: &'static str = "x-timestamp";

/// Relies on std::str::from_utf8: `Some` exactly when the bytes are valid
/// UTF-8, holding the text they encode.
#[verifier::external_body]
fn utf8_text(b: &[u8]) -> (r: Option<String>)
    ensures
        r is Some <==> valid_utf8(b@),
        r matches Some(t) ==> t@ == decode_utf8(b@),
{
    match std::str::from_utf8(b) {
        Ok(t) => Some(t.to_string()),
        Err(_) => None,
    }
}

pub open spec fn binary_placeholder() -> Seq<char> {
    "<binary or non-UTF8 content>"@
}

/// The log rendering of a body: empty for an empty body, else its JSON text
/// where it is JSON, else its UTF-8 text, else a placeholder.
pub open spec fn body_log_of(empty: bool, json: Option<Seq<char>>, text: Option<Seq<char>>) -> Seq<
    char,
> {
    if empty {
        Seq::empty()
    } else {
        match json {
            Some(j) => j,
            None => match text {
                Some(t) => t,
                None => binary_placeholder(),
            },
        }
    }
}

pub open spec fn opt_text(o: Option<String>) -> Option<Seq<char>> {
    match o {
        Some(s) => Some(s@),
        None => None,
    }
}

/// Chooses the rendering of a body from its JSON and UTF-8 readings.
pub fn render_body_log(empty: bool, json: Option<String>, text: Option<String>) -> (r: String)
    ensures
        r@ == body_log_of(empty, opt_text(json), opt_text(text)),
{
    if empty {
        return String::new();
    }
    match json {
        Some(j) => j,
        None => match text {
            Some(t) => t,
            None => String::from_str("<binary or non-UTF8 content>"),
        },
    }
}

/// The log rendering of the bytes of a body.
pub open spec fn body_log_text(b: Seq<u8>) -> Seq<char> {
    body_log_of(
        b.len() == 0,
        json_text_of(b),
        if valid_utf8(b) {
            Some(decode_utf8(b))
        } else {
            None
        },
    )
}

/// A best-effort text rendering of a body for the logs.
pub fn format_body_for_logging(body: &[u8]) -> (r: String)
    ensures
        r@ == body_log_text(body@),
{
    if body.len() == 0 {
        return String::new();
    }
    let json = json_text(body);
    let text = utf8_text(body);
    render_body_log(false, json, text)
}

pub open spec fn non_utf8_placeholder() -> Seq<char> {
    "<non-utf8>"@
}

pub open spec fn header_value_text(v: Option<String>) -> Seq<char> {
    match v {
        Some(s) => s@,
        None => non_utf8_placeholder(),
    }
}

/// The header entries as a mapping: an unreadable value becomes a
/// placeholder, and of a repeated name the last value counts.
pub open spec fn entries_map(e: Seq<(String, Option<String>)>) -> Map<Seq<char>, Seq<char>>
    decreases e.len(),
{
    if e.len() == 0 {
        Map::empty()
    } else {
        entries_map(e.drop_last()).insert(e.last().0@, header_value_text(e.last().1))
    }
}

/// Header entries as a map from name to text, one entry per name.
pub fn headers_to_map(entries: &Vec<(String, Option<String>)>) -> (r: Vec<(String, String)>)
    ensures
        keys_unique(r@),
        tags_view(r@) == entries_map(entries@),
{
    let mut r: Vec<(String, String)> = Vec::new();
    assert(tags_view(r@) =~= Map::<Seq<char>, Seq<char>>::empty());
    assert(entries@.subrange(0, 0).len() == 0);
    let mut i: usize = 0;
    while i < entries.len()
        invariant
            0 <= i <= entries@.len(),
            keys_unique(r@),
            tags_view(r@) == entries_map(entries@.subrange(0, i as int)),
        decreases entries@.len() - i,
    {
        let name = entries[i].0.clone();
        let value = match &entries[i].1 {
            Some(v) => v.clone(),
            None => String::from_str("<non-utf8>"),
        };
        upsert_tag(&mut r, name, value);
        assert(entries@.subrange(0, i as int + 1).drop_last() =~= entries@.subrange(0, i as int));
        i = i + 1;
    }
    assert(entries@.subrange(0, entries@.len() as int) =~= entries@);
    r
}

/// `"name":"value"` pairs of a header list, joined by commas.
pub open spec fn header_members_of(h: Seq<(String, String)>) -> Seq<char>
    decreases h.len(),
{
    if h.len() == 0 {
        Seq::empty()
    } else {
        let last = json_quoted_of(h.last().0@) + ":"@ + json_quoted_of(h.last().1@);
        if h.len() == 1 {
            last
        } else {
            header_members_of(h.drop_last()) + ","@ + last
        }
    }
}

/// The headers as a JSON object, in their order.
pub fn headers_json(h: &Vec<(String, String)>) -> (r: String)
    ensures
        r@ == "{"@ + header_members_of(h@) + "}"@,
{
    let mut members = String::new();
    let mut i: usize = 0;
    while i < h.len()
        invariant
            0 <= i <= h@.len(),
            members@ == header_members_of(h@.subrange(0, i as int)),
        decreases h@.len() - i,
    {
        let pair = String::from_str(json_quote(h[i].0.as_str()).as_str()).concat(":").concat(
            json_quote(h[i].1.as_str()).as_str(),
        );
        let ghost prefix = h@.subrange(0, i as int + 1);
        assert(prefix.drop_last() =~= h@.subrange(0, i as int));
        assert(prefix.last() == h@[i as int]);
        if i == 0 {
            members = pair;
        } else {
            members = members.concat(",").concat(pair.as_str());
        }
        i = i + 1;
    }
    assert(h@.subrange(0, h@.len() as int) =~= h@);
    String::from_str("{").concat(members.as_str()).concat("}")
}

/// The decimal digits of `n`.
pub open spec fn decimal_of(n: nat) -> Seq<char>
    decreases n,
{
    if n < 10 {
        seq![digit_char(n as int)]
    } else {
        decimal_of(n / 10).push(digit_char((n % 10) as int))
    }
}

/// `n` in decimal.
pub fn decimal_text(n: u64) -> (r: String)
    ensures
        r@ == decimal_of(n as nat),
    decreases n,
{
    if n < 10 {
        String::from_str(digit_str(n as u16))
    } else {
        let head = decimal_text(n / 10);
        let r = head.concat(digit_str((n % 10) as u16));
        assert(r@ =~= decimal_of(n as nat));
        r
    }
}

pub open spec fn incoming_line_of(
    method: Seq<char>,
    path: Seq<char>,
    headers: Seq<char>,
    body: Seq<char>,
) -> Seq<char> {
    "[IN]("@ + method + ","@ + path + ")"@ + headers + ","@ + body
}

/// `[IN](method,path)headers,body`
pub fn incoming_log_line(method: &str, path: &str, headers: &str, body: &str) -> (r: String)
    ensures
        r@ == incoming_line_of(method@, path@, headers@, body@),
{
    String::from_str("[IN](").concat(method).concat(",").concat(path).concat(")").concat(
        headers,
    ).concat(",").concat(body)
}

/// `[OUT](method,path)headers,body`
pub fn outgoing_log_line(method: &str, path: &str, headers: &str, body: &str) -> (r: String)
    ensures
        r@ == "[OUT]("@ + method@ + ","@ + path@ + ")"@ + headers@ + ","@ + body@,
{
    String::from_str("[OUT](").concat(method).concat(",").concat(path).concat(")").concat(
        headers,
    ).concat(",").concat(body)
}

/// `(method,path,Nms) [status]`
pub fn summary_log_line(method: &str, path: &str, elapsed_ms: u64, status: &str) -> (r: String)
    ensures
        r@ == "("@ + method@ + ","@ + path@ + ","@ + decimal_of(elapsed_ms as nat) + "ms) ["@
            + status@ + "]"@,
{
    String::from_str("(").concat(method).concat(",").concat(path).concat(",").concat(
        decimal_text(elapsed_ms).as_str(),
    ).concat("ms) [").concat(status).concat("]")
}

/// A character that a header value may be built from: tab, or anything from
/// space up but DEL.
pub open spec fn is_header_value_char(c: char) -> bool {
    c == '\t' || (' ' <= c && c != '\x7f')
}

pub open spec fn is_header_value(s: Seq<char>) -> bool {
    forall|i: int| 0 <= i < s.len() ==> is_header_value_char(#[trigger] s[i])
}

/// The headers added to every response, or `None` where a value cannot be a
/// header value.
pub open spec fn outbound_headers_of(timestamp: Seq<char>, trace_id: Seq<char>) -> Option<
    Seq<(Seq<char>, Seq<char>)>,
> {
    if is_header_value(timestamp) && is_header_value(trace_id) {
        Some(seq![(TIMESTAMP_HEADER@, timestamp), (TRACE_ID_HEADER@, trace_id)])
    } else {
        None
    }
}

pub fn is_valid_header_value(s: &str) -> (r: bool)
    ensures
        r == is_header_value(s@),
{
    let n = s.unicode_len();
    let mut i: usize = 0;
    while i < n
        invariant
            n == s@.len(),
            0 <= i <= n,
            forall|j: int| 0 <= j < i ==> is_header_value_char(#[trigger] s@[j]),
        decreases n - i,
    {
        let c = s.get_char(i);
        if !(c == '\t' || (' ' <= c && c != '\x7f')) {
            return false;
        }
        i = i + 1;
    }
    true
}

pub open spec fn pairs_view(v: Seq<(String, String)>) -> Seq<(Seq<char>, Seq<char>)> {
    v.map_values(|p: (String, String)| (p.0@, p.1@))
}

/// The timestamp and trace headers of a response; `None` is the one fatal
/// path of the pipeline, answered by `create_error_response`.
pub fn outbound_headers(timestamp: String, trace_id: String) -> (r: Option<Vec<(String, String)>>)
    ensures
        match r {
            Some(h) => outbound_headers_of(timestamp@, trace_id@) == Some(pairs_view(h@)),
            None => outbound_headers_of(timestamp@, trace_id@) is None,
        },
{
    if !is_valid_header_value(timestamp.as_str()) || !is_valid_header_value(trace_id.as_str()) {
        return None;
    }
    let h = vec![
        (String::from_str(TIMESTAMP_HEADER), timestamp),
        (String::from_str(TRACE_ID_HEADER), trace_id),
    ];
    assert(pairs_view(h@) =~= seq![(TIMESTAMP_HEADER@, timestamp@), (TRACE_ID_HEADER@, trace_id@)]);
    Some(h)
}

/// A response built from plain values.
pub struct PlainResponse {
    pub status: u16,
    pub body: String,
}

/// The generic answer when the pipeline itself fails: 500 and a fixed body
/// that exposes nothing.
pub fn create_error_response() -> (r: PlainResponse)
    ensures
        r.status == 500,
        r.body@ == "Internal server error"@,
{
    PlainResponse { status: 500, body: String::from_str("Internal server error") }
}

proof fn lemma_rfc3339_is_header_value(timestamp: Seq<char>)
    requires
        is_rfc3339_text(timestamp),
    ensures
        is_header_value(timestamp),
{
    assert forall|i: int| 0 <= i < timestamp.len() implies is_header_value_char(
        #[trigger] timestamp[i],
    ) by {
        assert(is_rfc3339_char(timestamp[i]));
    }
}

proof fn lemma_trace_id_is_header_value(inbound: Option<Seq<char>>, generated: Seq<char>)
    requires
        is_trace_id_format(generated),
    ensures
        is_header_value(chosen_trace_id(inbound, generated)),
{
    assert forall|i: int| 0 <= i < generated.len() implies is_header_value_char(
        #[trigger] generated[i],
    ) by {
        assert(is_lower_hex(generated[i]));
    }
    if let Some(s) = inbound {
        if well_formed_trace_id(s) {
            assert forall|i: int| 0 <= i < s.len() implies is_header_value_char(#[trigger] s[i]) by {
                assert(is_header_char(s[i]));
            }
        }
    }
}

/// The trace header of a response carries the inbound trace identifier
/// unchanged where the request had a readable one, the empty one included;
/// otherwise a non-empty identifier in the generated form. The timestamp is
/// any text of the form the clock gives.
pub proof fn lemma_trace_header_echoed(
    inbound: Option<Seq<char>>,
    generated: Seq<char>,
    timestamp: Seq<char>,
)
    requires
        is_trace_id_format(generated),
        is_rfc3339_text(timestamp),
    ensures
        ({
            let id = chosen_trace_id(inbound, generated);
            &&& outbound_headers_of(timestamp, id) is Some
            &&& outbound_headers_of(timestamp, id).unwrap()[1] == (TRACE_ID_HEADER@, id)
            &&& match inbound {
                Some(s) => well_formed_trace_id(s) ==> id == s,
                None => true,
            }
            &&& (!(inbound matches Some(s) && well_formed_trace_id(s))) ==> (id.len() > 0
                && is_trace_id_format(id))
        }),
{
    lemma_rfc3339_is_header_value(timestamp);
    lemma_trace_id_is_header_value(inbound, generated);
}

/// The stages of the middleware around one request, in the order they run.
#[derive(Debug, Clone, Copy, PartialEq, Eq, Structural)]
pub enum Stage {
    Start,
    BodyBuffered,
    ContextAttached,
    Downstream,
    ResponseCaptured,
    Finished,
}

/// The middleware's state for one request: the buffered bodies, replayed
/// after they were read once, and the trace identifier.
pub struct RequestPipeline {
    pub stage: Stage,
    pub method: String,
    pub path: String,
    pub request_body: Vec<u8>,
    pub trace_id: String,
    pub response_body: Vec<u8>,
}

pub open spec fn read_bytes(read: Option<Vec<u8>>) -> Seq<u8> {
    match read {
        Some(b) => b@,
        None => Seq::empty(),
    }
}

impl RequestPipeline {
    pub fn start(method: String, path: String) -> (r: RequestPipeline)
        ensures
            r.stage == Stage::Start,
            r.method@ == method@,
            r.path@ == path@,
            r.request_body@.len() == 0,
            r.response_body@.len() == 0,
    {
        RequestPipeline {
            stage: Stage::Start,
            method,
            path,
            request_body: Vec::new(),
            trace_id: String::new(),
            response_body: Vec::new(),
        }
    }

    /// Keeps the request bytes that were read; a failed read counts as an
    /// empty body.
    pub fn buffer_request_body(&mut self, read: Option<Vec<u8>>)
        requires
            old(self).stage == Stage::Start,
        ensures
            final(self).stage == Stage::BodyBuffered,
            final(self).request_body@ == read_bytes(read),
            final(self).method == old(self).method,
            final(self).path == old(self).path,
            final(self).trace_id == old(self).trace_id,
            final(self).response_body == old(self).response_body,
    {
        self.request_body = match read {
            Some(b) => b,
            None => Vec::new(),
        };
        self.stage = Stage::BodyBuffered;
    }

    /// Chooses the trace identifier and builds the request's context.
    pub fn attach_context(&mut self, inbound_trace: Option<String>) -> (ctx: RequestContext)
        requires
            old(self).stage == Stage::BodyBuffered,
        ensures
            final(self).stage == Stage::ContextAttached,
            match opt_view(inbound_trace) {
                Some(s) => if well_formed_trace_id(s) {
                    final(self).trace_id@ == s
                } else {
                    is_trace_id_format(final(self).trace_id@)
                },
                None => is_trace_id_format(final(self).trace_id@),
            },
            is_header_value(final(self).trace_id@),
            ctx.wf(),
            ctx.request_id@ == final(self).trace_id@,
            ctx.method@ == old(self).method@,
            ctx.path@ == old(self).path@,
            ctx.metadata_view().dom() == set!["timestamp"@],
            is_rfc3339_text(ctx.metadata_view()["timestamp"@]),
            final(self).method == old(self).method,
            final(self).path == old(self).path,
            final(self).request_body == old(self).request_body,
            final(self).response_body == old(self).response_body,
    {
        let ghost inbound = opt_view(inbound_trace);
        self.trace_id = extract_or_generate_trace_id(inbound_trace);
        proof {
            if inbound matches Some(s) && well_formed_trace_id(s) {
                lemma_trace_id_is_header_value(inbound, seq!['0'; 32]);
            } else {
                lemma_trace_id_is_header_value(None, self.trace_id@);
            }
        }
        self.stage = Stage::ContextAttached;
        create_request_context(self.method.as_str(), self.path.as_str(), self.trace_id.clone())
    }

    /// Hands the request on; returns the incoming log line.
    pub fn enter_downstream(&mut self, headers_json: &str) -> (line: String)
        requires
            old(self).stage == Stage::ContextAttached,
        ensures
            final(self).stage == Stage::Downstream,
            line@ == incoming_line_of(
                old(self).method@,
                old(self).path@,
                headers_json@,
                body_log_text(old(self).request_body@),
            ),
            final(self).method == old(self).method,
            final(self).path == old(self).path,
            final(self).trace_id == old(self).trace_id,
            final(self).request_body == old(self).request_body,
            final(self).response_body == old(self).response_body,
    {
        let body = format_body_for_logging(self.request_body.as_slice());
        let line = incoming_log_line(self.method.as_str(), self.path.as_str(), headers_json, body.as_str());
        self.stage = Stage::Downstream;
        line
    }

    /// Keeps the response bytes that were read; a failed read counts as an
    /// empty body.
    pub fn capture_response(&mut self, read: Option<Vec<u8>>)
        requires
            old(self).stage == Stage::Downstream,
        ensures
            final(self).stage == Stage::ResponseCaptured,
            final(self).response_body@ == read_bytes(read),
            final(self).method == old(self).method,
            final(self).path == old(self).path,
            final(self).trace_id == old(self).trace_id,
            final(self).request_body == old(self).request_body,
    {
        self.response_body = match read {
            Some(b) => b,
            None => Vec::new(),
        };
        self.stage = Stage::ResponseCaptured;
    }

    /// The headers the response gets, stamped with the current time. Once a
    /// context is attached the trace identifier is a valid header value, so
    /// they can always be built.
    pub fn finish(&mut self) -> (r: Option<Vec<(String, String)>>)
        requires
            old(self).stage == Stage::ResponseCaptured,
            is_header_value(old(self).trace_id@),
        ensures
            final(self).stage == Stage::Finished,
            r matches Some(h) && h@.len() == 2 && h@[0].0@ == TIMESTAMP_HEADER@ && is_rfc3339_text(
                h@[0].1@,
            ) && h@[1].0@ == TRACE_ID_HEADER@ && h@[1].1@ == old(self).trace_id@,
            final(self).method == old(self).method,
            final(self).path == old(self).path,
            final(self).trace_id == old(self).trace_id,
            final(self).request_body == old(self).request_body,
            final(self).response_body == old(self).response_body,
    {
        let timestamp = now_rfc3339();
        proof {
            lemma_rfc3339_is_header_value(timestamp@);
        }
        let r = self.finish_with_timestamp(timestamp);
        proof {
            let h = r->Some_0;
            assert(pairs_view(h@).len() == h@.len());
            assert(pairs_view(h@)[0] == (h@[0].0@, h@[0].1@));
            assert(pairs_view(h@)[1] == (h@[1].0@, h@[1].1@));
        }
        r
    }

    /// The headers the response gets with the given timestamp; `None` where
    /// they cannot be built, which is answered by `create_error_response`.
    pub fn finish_with_timestamp(&mut self, timestamp: String) -> (r: Option<Vec<(String, String)>>)
        requires
            old(self).stage == Stage::ResponseCaptured,
        ensures
            final(self).stage == Stage::Finished,
            match r {
                Some(h) => outbound_headers_of(timestamp@, old(self).trace_id@) == Some(
                    pairs_view(h@),
                ),
                None => outbound_headers_of(timestamp@, old(self).trace_id@) is None,
            },
            final(self).method == old(self).method,
            final(self).path == old(self).path,
            final(self).trace_id == old(self).trace_id,
            final(self).request_body == old(self).request_body,
            final(self).response_body == old(self).response_body,
    {
        self.stage = Stage::Finished;
        outbound_headers(timestamp, self.trace_id.clone())
    }
}

} // verus!
