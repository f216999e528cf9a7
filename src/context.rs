//! Per-request context: the trace identifier, method, path and additive
//! metadata tags; and how the trace identifier is chosen.
use crate::json::same_text;
use vstd::prelude::*;

verus! {

/// The value of `key` among the tags, the first one of that name.
pub open spec fn tag_of(tags: Seq<(String, String)>, key: Seq<char>) -> Option<Seq<char>>
    decreases tags.len(),
{
    if tags.len() == 0 {
        None
    } else if tags[0].0@ == key {
        Some(tags[0].1@)
    } else {
        tag_of(tags.drop_first(), key)
    }
}

pub open spec fn keys_unique(tags: Seq<(String, String)>) -> bool {
    forall|i: int, j: int|
        0 <= i < tags.len() && 0 <= j < tags.len() && i != j ==> #[trigger] tags[i].0@
            != #[trigger] tags[j].0@
}

proof fn lemma_tag_of_found(tags: Seq<(String, String)>, key: Seq<char>, i: int)
    requires
        keys_unique(tags),
        0 <= i < tags.len(),
        tags[i].0@ == key,
    ensures
        tag_of(tags, key) == Some(tags[i].1@),
    decreases tags.len(),
{
    if i > 0 {
        assert(tags[0].0@ != key);
        lemma_tag_of_found(tags.drop_first(), key, i - 1);
    }
}

proof fn lemma_tag_of_present(tags: Seq<(String, String)>, key: Seq<char>)
    requires
        tag_of(tags, key) is Some,
    ensures
        exists|i: int| 0 <= i < tags.len() && #[trigger] tags[i].0@ == key && tag_of(tags, key) == Some(
            tags[i].1@,
        ),
    decreases tags.len(),
{
    if tags[0].0@ != key {
        lemma_tag_of_present(tags.drop_first(), key);
        let i = choose|i: int|
            0 <= i < tags.drop_first().len() && #[trigger] tags.drop_first()[i].0@ == key && tag_of(
                tags.drop_first(),
                key,
            ) == Some(tags.drop_first()[i].1@);
        assert(tags[i + 1] == tags.drop_first()[i]);
    }
}

/// The metadata tags as a mapping.
pub open spec fn tags_view(tags: Seq<(String, String)>) -> Map<Seq<char>, Seq<char>> {
    Map::new(|k: Seq<char>| tag_of(tags, k) is Some, |k: Seq<char>| tag_of(tags, k).unwrap())
}

/// Replacing or adding one tag changes the mapping at that key only.
proof fn lemma_tags_view_after_write(
    old_tags: Seq<(String, String)>,
    tags: Seq<(String, String)>,
    k: Seq<char>,
    v: Seq<char>,
    i: int,
)
    requires
        keys_unique(old_tags),
        keys_unique(tags),
        0 <= i < tags.len(),
        tags[i].0@ == k,
        tags[i].1@ == v,
        i < old_tags.len() ==> old_tags[i].0@ == k,
        forall|j: int|
            0 <= j < tags.len() && j != i ==> j < old_tags.len() && #[trigger] tags[j]
                == old_tags[j],
        forall|j: int|
            0 <= j < old_tags.len() && j != i ==> j < tags.len() && tags[j] == #[trigger] old_tags[j],
    ensures
        tags_view(tags) == tags_view(old_tags).insert(k, v),
{
    lemma_tag_of_found(tags, k, i);
    assert forall|q: Seq<char>| q != k implies tag_of(tags, q) == tag_of(old_tags, q) by {
        if tag_of(old_tags, q) is Some {
            lemma_tag_of_present(old_tags, q);
            let j = choose|j: int|
                0 <= j < old_tags.len() && #[trigger] old_tags[j].0@ == q && tag_of(old_tags, q)
                    == Some(old_tags[j].1@);
            lemma_tag_of_found(tags, q, j);
        } else if tag_of(tags, q) is Some {
            lemma_tag_of_present(tags, q);
            let j = choose|j: int|
                0 <= j < tags.len() && #[trigger] tags[j].0@ == q && tag_of(tags, q) == Some(
                    tags[j].1@,
                );
            lemma_tag_of_found(old_tags, q, j);
        }
    }
    assert(tags_view(tags) =~= tags_view(old_tags).insert(k, v));
}

/// Sets tag `key` to `value` in a list of tags with unique keys, replacing an
/// earlier value of it in place or adding it at the end.
pub fn upsert_tag(tags: &mut Vec<(String, String)>, key: String, value: String)
    requires
        keys_unique(old(tags)@),
    ensures
        keys_unique(final(tags)@),
        tags_view(final(tags)@) == tags_view(old(tags)@).insert(key@, value@),
{
    let ghost old_tags = tags@;
    let ghost k = key@;
    let ghost v = value@;
    let mut i: usize = 0;
    while i < tags.len()
        invariant
            0 <= i <= tags.len(),
            tags@ == old_tags,
            old_tags == old(tags)@,
            keys_unique(old_tags),
            k == key@,
            v == value@,
            forall|j: int| 0 <= j < i ==> #[trigger] old_tags[j].0@ != k,
        decreases tags.len() - i,
    {
        let same = same_text(tags[i].0.as_str(), key.as_str());
        assert(same == (old_tags[i as int].0@ == k));
        if same {
            tags.set(i, (key, value));
            proof {
                assert(keys_unique(tags@));
                lemma_tags_view_after_write(old_tags, tags@, k, v, i as int);
            }
            return;
        }
        i = i + 1;
    }
    tags.push((key, value));
    proof {
        assert(keys_unique(tags@));
        lemma_tags_view_after_write(old_tags, tags@, k, v, old_tags.len() as int);
    }
}

/// The context of one request.
#[derive(Debug, Clone)]
pub struct RequestContext {
    pub request_id: String,
    pub path: String,
    pub method: String,
    pub metadata: Vec<(String, String)>,
}

impl RequestContext {
    /// Metadata keys are unique.
    pub open spec fn wf(&self) -> bool {
        keys_unique(self.metadata@)
    }

    pub open spec fn metadata_view(&self) -> Map<Seq<char>, Seq<char>> {
        tags_view(self.metadata@)
    }

    /// A context with no metadata.
    pub fn new(method: String, path: String, request_id: String) -> (r: RequestContext)
        ensures
            r.wf(),
            r.request_id@ == request_id@,
            r.path@ == path@,
            r.method@ == method@,
            r.metadata_view() == Map::<Seq<char>, Seq<char>>::empty(),
    {
        let r = RequestContext { request_id, path, method, metadata: Vec::new() };
        assert(r.metadata_view() =~= Map::<Seq<char>, Seq<char>>::empty());
        r
    }

    /// Sets the tag `key` to `value`, replacing an earlier value of it.
    pub fn add_metadata(self, key: String, value: String) -> (r: RequestContext)
        requires
            self.wf(),
        ensures
            r.wf(),
            r.request_id@ == self.request_id@,
            r.path@ == self.path@,
            r.method@ == self.method@,
            r.metadata_view() == self.metadata_view().insert(key@, value@),
    {
        let mut ctx = self;
        upsert_tag(&mut ctx.metadata, key, value);
        ctx
    }
}

impl RequestContext {
    /// `[request_id method path]`, for log lines.
    pub fn describe(&self) -> (r: String)
        ensures
            r@ == "["@ + self.request_id@ + " "@ + self.method@ + " "@ + self.path@ + "]"@,
    {
        String::from_str("[").concat(self.request_id.as_str()).concat(" ").concat(
            self.method.as_str(),
        ).concat(" ").concat(self.path.as_str()).concat("]")
    }
}

pub open spec fn is_lower_hex(c: char) -> bool {
    ('0' <= c && c <= '9') || ('a' <= c && c <= 'f')
}

/// The form of a freshly generated trace identifier: 32 lowercase hex digits.
pub open spec fn is_trace_id_format(s: Seq<char>) -> bool {
    s.len() == 32 && forall|i: int| 0 <= i < s.len() ==> is_lower_hex(#[trigger] s[i])
}

/// A character that a readable header value may hold: tab or visible ASCII
/// and space.
pub open spec fn is_header_char(c: char) -> bool {
    c == '\t' || (' ' <= c && c <= '~')
}

/// An inbound trace identifier that is reused as it is: any readable header
/// value, the empty one included.
pub open spec fn well_formed_trace_id(s: Seq<char>) -> bool {
    forall|i: int| 0 <= i < s.len() ==> is_header_char(#[trigger] s[i])
}

/// The trace identifier of a request: the inbound one where it is well
/// formed, else the generated one.
pub open spec fn chosen_trace_id(inbound: Option<Seq<char>>, generated: Seq<char>) -> Seq<char> {
    match inbound {
        Some(s) => if well_formed_trace_id(s) {
            s
        } else {
            generated
        },
        None => generated,
    }
}

pub open spec fn opt_view(o: Option<String>) -> Option<Seq<char>> {
    match o {
        Some(s) => Some(s@),
        None => None,
    }
}

/// Relies on uuid::Uuid::new_v4 printed in its simple form, which is 32
/// lowercase hexadecimal digits.
#[verifier::external_body]
pub(crate) fn generate_trace_id() -> (r: String)
    ensures
        is_trace_id_format(r@),
{
    uuid::Uuid::new_v4().simple().to_string()
}

/// A character of RFC 3339 text as chrono writes it: digits, the signs, the
/// separators `-`, `:`, `T` and the decimal point.
pub open spec fn is_rfc3339_char(c: char) -> bool {
    ('0' <= c && c <= '9') || c == '-' || c == '+' || c == ':' || c == 'T' || c == '.'
}

/// Non-empty text made of RFC 3339 characters.
pub open spec fn is_rfc3339_text(s: Seq<char>) -> bool {
    s.len() > 0 && forall|i: int| 0 <= i < s.len() ==> is_rfc3339_char(#[trigger] s[i])
}

/// Relies on chrono::Utc::now and DateTime::to_rfc3339: the current time as
/// RFC 3339 text (date, `T`, time, optional fraction, `+00:00`). Only its
/// alphabet is assumed, which holds of every time.
#[verifier::external_body]
pub(crate) fn now_rfc3339() -> (r: String)
    ensures
        is_rfc3339_text(r@),
{
    chrono::Utc::now().to_rfc3339()
}

/// Whether an inbound trace identifier is reused as it is.
pub fn is_well_formed_trace_id(s: &str) -> (r: bool)
    ensures
        r == well_formed_trace_id(s@),
{
    let n = s.unicode_len();
    let mut i: usize = 0;
    while i < n
        invariant
            n == s@.len(),
            0 <= i <= n,
            forall|j: int| 0 <= j < i ==> is_header_char(#[trigger] s@[j]),
        decreases n - i,
    {
        let c = s.get_char(i);
        if !(c == '\t' || (' ' <= c && c <= '~')) {
            return false;
        }
        i = i + 1;
    }
    true
}

/// Picks the trace identifier from the inbound one and a generated one.
pub fn choose_trace_id(inbound: Option<String>, generated: String) -> (r: String)
    ensures
        r@ == chosen_trace_id(opt_view(inbound), generated@),
{
    match inbound {
        Some(s) => if is_well_formed_trace_id(s.as_str()) {
            s
        } else {
            generated
        },
        None => generated,
    }
}

/// The trace identifier of a request: the inbound header's value where it is
/// well formed, else a new random identifier.
pub fn extract_or_generate_trace_id(inbound: Option<String>) -> (r: String)
    ensures
        match opt_view(inbound) {
            Some(s) => if well_formed_trace_id(s) {
                r@ == s
            } else {
                is_trace_id_format(r@)
            },
            None => is_trace_id_format(r@),
        },
{
    let generated = generate_trace_id();
    choose_trace_id(inbound, generated)
}

/// A fresh context for a request, tagged with the time it was created.
pub fn create_request_context(method: &str, path: &str, request_id: String) -> (r: RequestContext)
    ensures
        r.wf(),
        r.request_id@ == request_id@,
        r.method@ == method@,
        r.path@ == path@,
        r.metadata_view().dom() == set!["timestamp"@],
        is_rfc3339_text(r.metadata_view()["timestamp"@]),
{
    let ctx = RequestContext::new(String::from_str(method), String::from_str(path), request_id);
    let r = ctx.add_metadata(String::from_str("timestamp"), now_rfc3339());
    assert(r.metadata_view().dom() =~= set!["timestamp"@]);
    r
}

/// The context of the request being handled, where one is reachable without
/// a parameter. Contexts are handed on explicitly, so there is none.
pub fn get_current_request_context() -> (r: Option<RequestContext>)
    ensures
        r is None,
{
    None
}

/// The label of the current logging scope: `[name]`, or `[no context]` when
/// there is no enabled scope.
pub fn format_request_context_for_log(scope: Option<&str>) -> (r: String)
    ensures
        match scope {
            Some(name) => r@ == "["@ + name@ + "]"@,
            None => r@ == "[no context]"@,
        },
{
    match scope {
        Some(name) => String::from_str("[").concat(name).concat("]"),
        None => String::from_str("[no context]"),
    }
}

} // verus!
