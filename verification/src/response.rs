//! Construction of normalized load-balancer responses.
//!
//! A response carries a status code, a body that is always present (an empty
//! body is the explicit [`Body::Empty`] variant, never an unset field), and
//! exactly one of two header representations, selected by a [`HeaderMode`]
//! fixed when the response is built.  Leaving the body unset or filling both
//! header slots risks rejection by the downstream load balancer, so both
//! invariants are stated and proved here.

use vstd::prelude::*;

use crate::text::spec_dec_int;
use crate::text::i64_to_string;

verus! {

/// The body of a response: explicitly empty, or text.
#[derive(Debug, PartialEq, Eq)]
pub enum Body {
    Empty,
    Text(String),
}

/// The mathematical shape of a [`Body`].
pub enum BodyView {
    Empty,
    Text(Seq<char>),
}

impl View for Body {
    type V = BodyView;

    open spec fn view(&self) -> BodyView {
        match self {
            Body::Empty => BodyView::Empty,
            Body::Text(t) => BodyView::Text(t@),
        }
    }
}

/// Which of the two header representations a response uses.  The mode is
/// chosen once, where the runtime is set up, and every response built for
/// that runtime populates only the matching slot.
#[derive(Clone, Copy, PartialEq, Eq, Structural, Debug)]
pub enum HeaderMode {
    /// One value per header name.
    Single,
    /// An ordered list of values per header name.
    Multi,
}

/// A header map as handed to the builders: an ordered list of names, each
/// with its list of values.
pub type HeaderEntries = Vec<(String, Vec<String>)>;

/// A normalized response envelope.
#[derive(Debug)]
pub struct Response {
    pub status_code: i64,
    pub body: Option<Body>,
    pub headers: Vec<(String, String)>,
    pub multi_value_headers: Vec<(String, Vec<String>)>,
    pub is_base64_encoded: bool,
    pub status_description: Option<String>,
}

/// The mathematical shape of a [`Response`].
#[verifier::ext_equal]
pub struct ResponseView {
    pub status_code: int,
    pub body: Option<BodyView>,
    pub headers: Seq<(Seq<char>, Seq<char>)>,
    pub multi_value_headers: Seq<(Seq<char>, Seq<Seq<char>>)>,
    pub is_base64_encoded: bool,
    pub status_description: Option<Seq<char>>,
}

impl View for Response {
    type V = ResponseView;

    open spec fn view(&self) -> ResponseView {
        ResponseView {
            status_code: self.status_code as int,
            body: match self.body {
                Some(b) => Some(b@),
                None => None,
            },
            headers: self.headers.deep_view(),
            multi_value_headers: self.multi_value_headers.deep_view(),
            is_base64_encoded: self.is_base64_encoded,
            status_description: match self.status_description {
                Some(d) => Some(d@),
                None => None,
            },
        }
    }
}

// ---------------------------------------------------------------------------
// Header maps
// ---------------------------------------------------------------------------
/// A one-entry header map.
pub open spec fn spec_single_header(name: Seq<char>, value: Seq<char>) -> Seq<
    (Seq<char>, Seq<Seq<char>>),
> {
    seq![(name, seq![value])]
}

/// The pairs one header entry contributes to a single-value header map.
pub open spec fn spec_entry_pairs(entry: (Seq<char>, Seq<Seq<char>>)) -> Seq<
    (Seq<char>, Seq<char>),
> {
    entry.1.map_values(|v: Seq<char>| (entry.0, v))
}

/// A multi-value header map spread into single-value pairs, order kept.
pub open spec fn spec_flatten_headers(h: Seq<(Seq<char>, Seq<Seq<char>>)>) -> Seq<
    (Seq<char>, Seq<char>),
>
    decreases h.len(),
{
    if h.len() == 0 {
        Seq::empty()
    } else {
        spec_flatten_headers(h.drop_last()) + spec_entry_pairs(h.last())
    }
}

/// Creates a single entry header map for the given name and value.
pub fn create_for(header_name: &str, value: &str) -> (h: HeaderEntries)
    ensures
        h.deep_view() == spec_single_header(header_name@, value@),
{
    let mut values: Vec<String> = Vec::new();
    values.push(value.to_owned());
    let mut h: HeaderEntries = Vec::new();
    h.push((header_name.to_owned(), values));
    proof {
        assert(h.deep_view() =~~= spec_single_header(header_name@, value@));
    }
    h
}

/// Creates a single entry header map when a value is given, and an empty map
/// otherwise.
pub fn create_for_optional(header_name: &str, optional_value: &Option<String>) -> (h: HeaderEntries)
    ensures
        h.deep_view() == match optional_value {
            Some(value) => spec_single_header(header_name@, value@),
            None => Seq::<(Seq<char>, Seq<Seq<char>>)>::empty(),
        },
{
    match optional_value {
        Some(value) => create_for(header_name, value.as_str()),
        None => {
            let h: HeaderEntries = Vec::new();
            proof {
                assert(h.deep_view() =~= Seq::<(Seq<char>, Seq<Seq<char>>)>::empty());
            }
            h
        },
    }
}

/// A header map carrying only `Content-Type`.
pub fn create_content_type_headers(value: &str) -> (h: HeaderEntries)
    ensures
        h.deep_view() == spec_single_header("Content-Type"@, value@),
{
    create_for("Content-Type", value)
}

// ---------------------------------------------------------------------------
// Response construction
// ---------------------------------------------------------------------------
/// What [`create`] builds: the body is always set (an absent input maps to
/// the explicit empty variant), only the slot of the chosen header mode is
/// filled, the response is never base64-marked, and the status description
/// restates the code.
pub open spec fn spec_create(
    mode: HeaderMode,
    status_code: int,
    body: Option<Seq<char>>,
    headers: Seq<(Seq<char>, Seq<Seq<char>>)>,
) -> ResponseView {
    ResponseView {
        status_code,
        body: match body {
            None => Some(BodyView::Empty),
            Some(text) => Some(BodyView::Text(text)),
        },
        headers: if mode is Single {
            spec_flatten_headers(headers)
        } else {
            Seq::empty()
        },
        multi_value_headers: if mode is Multi {
            headers
        } else {
            Seq::empty()
        },
        is_base64_encoded: false,
        status_description: Some(spec_dec_int(status_code) + " Response"@),
    }
}

/// Copies a multi-value header map into single-value pairs, order kept.
fn flatten_headers(headers: &HeaderEntries) -> (out: Vec<(String, String)>)
    ensures
        out.deep_view() == spec_flatten_headers(headers.deep_view()),
{
    let ghost hv = headers.deep_view();
    let mut out: Vec<(String, String)> = Vec::new();
    proof {
        assert(hv.take(0) =~= Seq::<(Seq<char>, Seq<Seq<char>>)>::empty());
        assert(out.deep_view() =~= spec_flatten_headers(hv.take(0)));
    }
    let mut i: usize = 0;
    while i < headers.len()
        invariant
            0 <= i <= headers.len(),
            hv == headers.deep_view(),
            hv.len() == headers.len(),
            out.deep_view() == spec_flatten_headers(hv.take(i as int)),
        decreases headers.len() - i,
    {
        let entry = &headers[i];
        let ghost before = out.deep_view();
        let mut j: usize = 0;
        proof {
            assert(spec_entry_pairs(hv[i as int]).take(0) =~= Seq::<(Seq<char>, Seq<char>)>::empty());
            assert(out.deep_view() =~= before + spec_entry_pairs(hv[i as int]).take(0));
        }
        while j < entry.1.len()
            invariant
                0 <= j <= entry.1.len(),
                hv == headers.deep_view(),
                hv.len() == headers.len(),
                i < headers.len(),
                entry == &headers[i as int],
                entry.1.deep_view().len() == entry.1.len(),
                out.deep_view() == before + spec_entry_pairs(hv[i as int]).take(j as int),
            decreases entry.1.len() - j,
        {
            let name = entry.0.clone();
            let value = entry.1[j].clone();
            let ghost nm = name@;
            let ghost vv = value@;
            let ghost prev = out.deep_view();
            out.push((name, value));
            proof {
                assert(hv[i as int] == headers[i as int].deep_view());
                assert(nm == hv[i as int].0);
                assert(vv == hv[i as int].1[j as int]);
                assert(out.deep_view() =~= prev.push((nm, vv)));
                assert(spec_entry_pairs(hv[i as int]).take(j as int + 1) =~= spec_entry_pairs(
                    hv[i as int],
                ).take(j as int).push((hv[i as int].0, hv[i as int].1[j as int])));
                assert(out.deep_view() =~= before + spec_entry_pairs(hv[i as int]).take(
                    j as int + 1,
                ));
            }
            j = j + 1;
        }
        proof {
            assert(spec_entry_pairs(hv[i as int]).take(entry.1.len() as int) =~= spec_entry_pairs(
                hv[i as int],
            ));
            assert(hv.take(i as int + 1).drop_last() =~= hv.take(i as int));
            assert(hv.take(i as int + 1).last() == hv[i as int]);
            assert(out.deep_view() =~= spec_flatten_headers(hv.take(i as int + 1)));
        }
        i = i + 1;
    }
    proof {
        assert(hv.take(headers.len() as int) =~= hv);
    }
    out
}

/// Creates a normalized response, taking care of the details that might
/// otherwise lead to gateway errors on the load balancer: the body is always
/// set and only the slot of the chosen header mode is populated.
pub fn create(
    mode: HeaderMode,
    status_code: i64,
    body: Option<String>,
    headers: HeaderEntries,
) -> (r: Response)
    ensures
        r@ == spec_create(mode, status_code as int, body.deep_view(), headers.deep_view()),
{
    let ghost hv = headers.deep_view();
    let ghost bv = body.deep_view();
    let mut description = i64_to_string(status_code);
    description.append(" Response");
    let (single, multi): (Vec<(String, String)>, HeaderEntries) = match mode {
        HeaderMode::Single => (flatten_headers(&headers), Vec::new()),
        HeaderMode::Multi => (Vec::new(), headers),
    };
    proof {
        assert(single.deep_view() =~= (if mode is Single {
            spec_flatten_headers(hv)
        } else {
            Seq::<(Seq<char>, Seq<char>)>::empty()
        }));
        assert(multi.deep_view() =~= (if mode is Multi {
            hv
        } else {
            Seq::<(Seq<char>, Seq<Seq<char>>)>::empty()
        }));
    }
    let r = Response {
        status_code,
        body: match body {
            None => Some(Body::Empty),
            Some(content) => Some(Body::Text(content)),
        },
        headers: single,
        multi_value_headers: multi,
        is_base64_encoded: false,
        status_description: Some(description),
    };
    proof {
        assert(r@ =~= spec_create(mode, status_code as int, bv, hv));
    }
    r
}

/// Creates a response whose only header is the given content type.
pub fn create_with_content_type(
    mode: HeaderMode,
    status_code: i64,
    body: Option<String>,
    content_type: String,
) -> (r: Response)
    ensures
        r@ == spec_create(
            mode,
            status_code as int,
            body.deep_view(),
            spec_single_header("Content-Type"@, content_type@),
        ),
{
    let headers = create_content_type_headers(content_type.as_str());
    create(mode, status_code, body, headers)
}

/// What a JSON response looks like.
pub open spec fn spec_create_json(
    mode: HeaderMode,
    status_code: int,
    body: Option<Seq<char>>,
) -> ResponseView {
    spec_create(mode, status_code, body, spec_single_header("Content-Type"@, "application/json"@))
}

/// Creates a response declared as `application/json`.
pub fn create_json(mode: HeaderMode, status_code: i64, body: Option<String>) -> (r: Response)
    ensures
        r@ == spec_create_json(mode, status_code as int, body.deep_view()),
{
    create_with_content_type(mode, status_code, body, "application/json".to_owned())
}

/// What a plain-text response looks like.
pub open spec fn spec_create_plain_text(
    mode: HeaderMode,
    status_code: int,
    body: Option<Seq<char>>,
) -> ResponseView {
    spec_create(mode, status_code, body, spec_single_header("Content-Type"@, "text/plain"@))
}

/// Creates a response declared as `text/plain`.
pub fn create_plain_text(mode: HeaderMode, status_code: i64, body: Option<String>) -> (r: Response)
    ensures
        r@ == spec_create_plain_text(mode, status_code as int, body.deep_view()),
{
    create_with_content_type(mode, status_code, body, "text/plain".to_owned())
}

// ---------------------------------------------------------------------------
// Serialized payloads
// ---------------------------------------------------------------------------
/// Relies on serde_json::to_string: renders a serializable value as JSON
/// text.  Which text comes back is not stated here; callers work with
/// whatever outcome arrives.  A failure is turned into its display message.
#[verifier::external_body]
pub(crate) fn serialize_json<T: serde::Serialize>(value: &T) -> (outcome: Result<String, String>) {
    match serde_json::to_string(value) {
        Ok(serialized) => Ok(serialized),
        Err(cause) => Err(format!("{}", cause)),
    }
}

/// The mathematical shape of a serialization outcome.
pub open spec fn spec_outcome_view(outcome: Result<String, String>) -> Result<Seq<char>, Seq<char>> {
    match outcome {
        Ok(serialized) => Ok(serialized@),
        Err(message) => Err(message@),
    }
}

/// What a response built from a serialization outcome looks like: JSON with
/// the requested status when serialization succeeded, a plain-text `500`
/// carrying the failure message when it did not.
pub open spec fn spec_from_serialized(
    mode: HeaderMode,
    status_code: int,
    outcome: Result<Seq<char>, Seq<char>>,
) -> ResponseView {
    match outcome {
        Ok(serialized) => spec_create_json(mode, status_code, Some(serialized)),
        Err(message) => spec_create_plain_text(mode, 500, Some(message)),
    }
}

/// Builds the response for a serialization outcome.  Serialization failures
/// never escape this boundary: they degrade into a valid `500` response.
pub fn from_serialized(mode: HeaderMode, status_code: i64, outcome: Result<String, String>) -> (r:
    Response)
    ensures
        r@ == spec_from_serialized(mode, status_code as int, spec_outcome_view(outcome)),
{
    match outcome {
        Ok(serialized) => create_json(mode, status_code, Some(serialized)),
        Err(message) => create_plain_text(mode, 500, Some(message)),
    }
}

/// Creates a response wrapping a serializable value as JSON; a serialization
/// failure yields a plain-text `500` instead of an exception.
pub fn create_json_from_obj<T: serde::Serialize>(mode: HeaderMode, status: i64, object: &T) -> (r:
    Response)
    ensures
        exists|outcome: Result<Seq<char>, Seq<char>>|
            r@ == spec_from_serialized(mode, status as int, outcome),
        spec_is_normalized(r@),
{
    let outcome = serialize_json(object);
    let ghost ov = spec_outcome_view(outcome);
    let r = from_serialized(mode, status, outcome);
    proof {
        assert(r@ == spec_from_serialized(mode, status as int, ov));
        match ov {
            Ok(s) => lemma_one_header_slot(
                mode,
                status as int,
                Some(s),
                spec_single_header("Content-Type"@, "application/json"@),
            ),
            Err(m) => lemma_one_header_slot(
                mode,
                500,
                Some(m),
                spec_single_header("Content-Type"@, "text/plain"@),
            ),
        }
    }
    r
}

/// Creates a JSON response from an optional value: an absent value yields a
/// response with an explicitly empty body and no headers.
pub fn create_json_from_optional<T: serde::Serialize>(
    mode: HeaderMode,
    status: i64,
    optional: &Option<T>,
) -> (r: Response)
    ensures
        optional is Some ==> exists|outcome: Result<Seq<char>, Seq<char>>|
            r@ == spec_from_serialized(mode, status as int, outcome),
        optional is None ==> r@ == spec_create(
            mode,
            status as int,
            None,
            Seq::<(Seq<char>, Seq<Seq<char>>)>::empty(),
        ),
        spec_is_normalized(r@),
{
    match optional {
        Some(object) => create_json_from_obj(mode, status, object),
        None => {
            let empty: HeaderEntries = Vec::new();
            proof {
                assert(empty.deep_view() =~= Seq::<(Seq<char>, Seq<Seq<char>>)>::empty());
            }
            let r = create(mode, status, None, empty);
            proof {
                lemma_one_header_slot(
                    mode,
                    status as int,
                    None,
                    Seq::<(Seq<char>, Seq<Seq<char>>)>::empty(),
                );
            }
            r
        },
    }
}

// ---------------------------------------------------------------------------
// Copying a response
// ---------------------------------------------------------------------------
fn clone_string_pairs(v: &Vec<(String, String)>) -> (r: Vec<(String, String)>)
    ensures
        r.deep_view() == v.deep_view(),
{
    let mut r: Vec<(String, String)> = Vec::new();
    proof {
        assert(r.deep_view() =~= v.deep_view().take(0));
    }
    let mut i: usize = 0;
    while i < v.len()
        invariant
            0 <= i <= v.len(),
            r.deep_view() == v.deep_view().take(i as int),
        decreases v.len() - i,
    {
        let name = v[i].0.clone();
        let value = v[i].1.clone();
        let ghost nm = name@;
        let ghost vv = value@;
        let ghost prev = r.deep_view();
        r.push((name, value));
        proof {
            assert(r.deep_view() =~= prev.push((nm, vv)));
            assert(v.deep_view().take(i as int + 1) =~= v.deep_view().take(i as int).push(
                v.deep_view()[i as int],
            ));
            assert(r.deep_view() =~= v.deep_view().take(i as int + 1));
        }
        i = i + 1;
    }
    proof {
        assert(v.deep_view().take(v.len() as int) =~= v.deep_view());
    }
    r
}

fn clone_string_values(v: &Vec<String>) -> (r: Vec<String>)
    ensures
        r.deep_view() == v.deep_view(),
{
    let mut r: Vec<String> = Vec::new();
    proof {
        assert(r.deep_view() =~= v.deep_view().take(0));
    }
    let mut i: usize = 0;
    while i < v.len()
        invariant
            0 <= i <= v.len(),
            r.deep_view() == v.deep_view().take(i as int),
        decreases v.len() - i,
    {
        let value = v[i].clone();
        let ghost vv = value@;
        let ghost prev = r.deep_view();
        r.push(value);
        proof {
            assert(r.deep_view() =~= prev.push(vv));
            assert(v.deep_view().take(i as int + 1) =~= v.deep_view().take(i as int).push(
                v.deep_view()[i as int],
            ));
            assert(r.deep_view() =~= v.deep_view().take(i as int + 1));
        }
        i = i + 1;
    }
    proof {
        assert(v.deep_view().take(v.len() as int) =~= v.deep_view());
    }
    r
}

fn clone_header_entries(v: &HeaderEntries) -> (r: HeaderEntries)
    ensures
        r.deep_view() == v.deep_view(),
{
    let mut r: HeaderEntries = Vec::new();
    proof {
        assert(r.deep_view() =~= v.deep_view().take(0));
    }
    let mut i: usize = 0;
    while i < v.len()
        invariant
            0 <= i <= v.len(),
            r.deep_view() == v.deep_view().take(i as int),
        decreases v.len() - i,
    {
        let name = v[i].0.clone();
        let values = clone_string_values(&v[i].1);
        let ghost nm = name@;
        let ghost vv = values.deep_view();
        let ghost prev = r.deep_view();
        r.push((name, values));
        proof {
            assert(r.deep_view() =~= prev.push((nm, vv)));
            assert(v.deep_view().take(i as int + 1) =~= v.deep_view().take(i as int).push(
                v.deep_view()[i as int],
            ));
            assert(r.deep_view() =~= v.deep_view().take(i as int + 1));
        }
        i = i + 1;
    }
    proof {
        assert(v.deep_view().take(v.len() as int) =~= v.deep_view());
    }
    r
}

impl Response {
    /// Copies this response; the copy has the same mathematical shape.
    pub fn duplicate(&self) -> (r: Response)
        ensures
            r@ == self@,
    {
        let r = Response {
            status_code: self.status_code,
            body: match &self.body {
                None => None,
                Some(Body::Empty) => Some(Body::Empty),
                Some(Body::Text(text)) => Some(Body::Text(text.clone())),
            },
            headers: clone_string_pairs(&self.headers),
            multi_value_headers: clone_header_entries(&self.multi_value_headers),
            is_base64_encoded: self.is_base64_encoded,
            status_description: match &self.status_description {
                None => None,
                Some(description) => Some(description.clone()),
            },
        };
        proof {
            assert(r@ =~= self@);
        }
        r
    }
}

// ---------------------------------------------------------------------------
// The two response invariants
// ---------------------------------------------------------------------------
/// A response fit for the load balancer: its body is set, at most one header
/// slot is populated, and it is not base64-marked.
pub open spec fn spec_is_normalized(r: ResponseView) -> bool {
    &&& r.body is Some
    &&& !(r.headers.len() > 0 && r.multi_value_headers.len() > 0)
    &&& r.is_base64_encoded == false
}

/// Every constructed response carries a body: an absent input body becomes
/// the explicit empty variant, never an unset field.
pub proof fn lemma_body_always_present(
    mode: HeaderMode,
    status_code: int,
    body: Option<Seq<char>>,
    headers: Seq<(Seq<char>, Seq<Seq<char>>)>,
)
    ensures
        spec_create(mode, status_code, body, headers).body is Some,
        body is None ==> spec_create(mode, status_code, body, headers).body == Some(
            BodyView::Empty,
        ),
        body matches Some(text) ==> spec_create(mode, status_code, body, headers).body == Some(
            BodyView::Text(text),
        ),
{
}

proof fn lemma_flatten_headers_len(h: Seq<(Seq<char>, Seq<Seq<char>>)>, i: int)
    requires
        0 <= i < h.len(),
    ensures
        spec_flatten_headers(h).len() >= h[i].1.len(),
    decreases h.len(),
{
    if i == h.len() - 1 {
        assert(h.last() == h[i]);
    } else {
        assert(h.drop_last()[i] == h[i]);
        lemma_flatten_headers_len(h.drop_last(), i);
    }
}

/// Every constructed response populates exactly the header slot of the
/// chosen mode: the other slot is empty, and the active slot carries the
/// given header map (spread into pairs in single-value mode).
pub proof fn lemma_one_header_slot(
    mode: HeaderMode,
    status_code: int,
    body: Option<Seq<char>>,
    headers: Seq<(Seq<char>, Seq<Seq<char>>)>,
)
    ensures
        mode is Single ==> spec_create(mode, status_code, body, headers).multi_value_headers
            == Seq::<(Seq<char>, Seq<Seq<char>>)>::empty(),
        mode is Single ==> spec_create(mode, status_code, body, headers).headers
            == spec_flatten_headers(headers),
        mode is Multi ==> spec_create(mode, status_code, body, headers).headers == Seq::<
            (Seq<char>, Seq<char>),
        >::empty(),
        mode is Multi ==> spec_create(mode, status_code, body, headers).multi_value_headers
            == headers,
        spec_is_normalized(spec_create(mode, status_code, body, headers)),
        mode is Multi && headers.len() > 0 ==> spec_create(
            mode,
            status_code,
            body,
            headers,
        ).multi_value_headers.len() > 0,
        mode is Single && (exists|i: int| 0 <= i < headers.len() && #[trigger] headers[i].1.len()
            > 0) ==> spec_create(mode, status_code, body, headers).headers.len() > 0,
{
    if mode is Single && (exists|i: int|
        0 <= i < headers.len() && #[trigger] headers[i].1.len() > 0) {
        let i = choose|i: int| 0 <= i < headers.len() && #[trigger] headers[i].1.len() > 0;
        lemma_flatten_headers_len(headers, i);
    }
}

} // verus!
