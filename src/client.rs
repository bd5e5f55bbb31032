//! The requests sent to the search service and the handling of its answers,
//! short of the transport itself.

use vstd::prelude::*;

use crate::model::opt_view;
use crate::query::{url_encode, url_encoded, SearchParams};
use crate::text::{decimal, join, join_strings, prefix_chars, prefix_of, u64_to_decimal, views};

verus! {

/// The key sent when none is configured: the service's public demo key.
pub const DEFAULT_API_KEY: &'static str = "jobboerse-jobsuche";

/// The most characters of a response body that a decode error carries.
pub const BODY_EXCERPT_CHARS: usize = 500;

/// `key=value` for a present value, nothing for an absent one.
pub open spec fn text_part(key: Seq<char>, value: Option<Seq<char>>) -> Seq<Seq<char>> {
    match value {
        Some(v) => seq![key + v],
        None => Seq::empty(),
    }
}

/// `key=n` in decimal for a present number, nothing for an absent one.
pub open spec fn number_part(key: Seq<char>, value: Option<u64>) -> Seq<Seq<char>> {
    match value {
        Some(n) => seq![key + decimal(n as nat)],
        None => Seq::empty(),
    }
}

/// `key=v` for each value, in order.
pub open spec fn repeated_part(key: Seq<char>, values: Seq<Seq<char>>) -> Seq<Seq<char>> {
    values.map_values(|v: Seq<char>| key + v)
}

/// The encoded form of an optional text.
pub open spec fn encoded_opt(o: Option<Seq<char>>) -> Option<Seq<char>> {
    match o {
        Some(s) => Some(url_encoded(s)),
        None => None,
    }
}

/// The parameters of the search query, in the order they are sent.
pub open spec fn query_parts(q: SearchParams) -> Seq<Seq<char>> {
    text_part("was="@, encoded_opt(opt_view(q.was)))
        + text_part("wo="@, encoded_opt(opt_view(q.wo)))
        + number_part("umkreis="@, q.umkreis)
        + number_part("size="@, q.size)
        + number_part("page="@, q.page)
        + number_part("veroeffentlichtseit="@, q.veroeffentlichtseit)
        + match q.arbeitszeit {
            Some(codes) => repeated_part("arbeitszeit="@, views(codes@)),
            None => Seq::empty(),
        }
}

/// The address of a search: the search endpoint, then `?` and the parameters
/// joined by `&` when there is any.
pub open spec fn search_url_text(base: Seq<char>, q: SearchParams) -> Seq<char> {
    let parts = query_parts(q);
    base + "/pc/v4/jobs"@ + if parts.len() == 0 {
        Seq::<char>::empty()
    } else {
        "?"@ + join(parts, "&"@)
    }
}

/// The address of the detail record of one listing.
pub open spec fn detail_url_text(base: Seq<char>, reference: Seq<char>) -> Seq<char> {
    base + "/pc/v4/jobdetails/"@ + url_encoded(reference)
}

/// A failed call to the search service.
#[derive(Debug, Clone)]
pub enum ApiError {
    /// The service answered with a status outside 200 to 299.
    Status { status: u16 },
    /// The request did not complete.
    Transport { message: String },
    /// The body is not a document of the expected shape.
    Decode { message: String, body_excerpt: String },
}

/// The message of a failed call.
pub open spec fn error_message(e: ApiError) -> Seq<char> {
    match e {
        ApiError::Status { status } => "API error: "@ + decimal(status as nat),
        ApiError::Transport { message } => "Request failed: "@ + message@,
        ApiError::Decode { message, body_excerpt } => "Failed to parse API response: "@ + message@
            + "; response body starts with: "@ + body_excerpt@,
    }
}

impl ApiError {
    /// The message of this error.
    pub fn message(&self) -> (r: String)
        ensures
            r@ == error_message(*self),
    {
        match self {
            ApiError::Status { status } => String::from_str("API error: ").concat(
                u64_to_decimal(*status as u64).as_str(),
            ),
            ApiError::Transport { message } => String::from_str("Request failed: ").concat(
                message.as_str(),
            ),
            ApiError::Decode { message, body_excerpt } => String::from_str(
                "Failed to parse API response: ",
            ).concat(message.as_str()).concat("; response body starts with: ").concat(
                body_excerpt.as_str(),
            ),
        }
    }
}

/// The key to send: the configured one, else the public demo key.
pub fn resolve_api_key(api_key: Option<&str>) -> (r: String)
    ensures
        r@ == match api_key {
            Some(k) => k@,
            None => DEFAULT_API_KEY@,
        },
{
    match api_key {
        Some(k) => String::from_str(k),
        None => String::from_str(DEFAULT_API_KEY),
    }
}

fn push_number(parts: &mut Vec<String>, key: &str, value: Option<u64>)
    ensures
        views(final(parts)@) == views(old(parts)@) + number_part(key@, value),
{
    match value {
        Some(n) => {
            parts.push(String::from_str(key).concat(u64_to_decimal(n).as_str()));
        },
        None => {},
    }
    assert(views(final(parts)@) =~= views(old(parts)@) + number_part(key@, value));
}

fn push_encoded(parts: &mut Vec<String>, key: &str, value: &Option<String>)
    ensures
        views(final(parts)@) == views(old(parts)@) + text_part(key@, encoded_opt(opt_view(*value))),
{
    match value {
        Some(v) => {
            parts.push(String::from_str(key).concat(url_encode(v.as_str()).as_str()));
        },
        None => {},
    }
    assert(views(final(parts)@) =~= views(old(parts)@) + text_part(
        key@,
        encoded_opt(opt_view(*value)),
    ));
}

fn push_repeated(parts: &mut Vec<String>, key: &str, values: &Vec<String>)
    ensures
        views(final(parts)@) == views(old(parts)@) + repeated_part(key@, views(values@)),
{
    let ghost start = views(parts@);
    let mut i: usize = 0;
    while i < values.len()
        invariant
            i <= values@.len(),
            views(parts@) == start + repeated_part(key@, views(values@.take(i as int))),
        decreases values@.len() - i,
    {
        let ghost before = views(parts@);
        parts.push(String::from_str(key).concat(values[i].as_str()));
        assert(views(values@.take(i as int + 1)) =~= views(values@.take(i as int)).push(
            values@[i as int]@,
        ));
        assert(views(parts@) =~= before.push(key@ + values@[i as int]@));
        assert(repeated_part(key@, views(values@.take(i as int + 1))) =~= repeated_part(
            key@,
            views(values@.take(i as int)),
        ).push(key@ + values@[i as int]@));
        i = i + 1;
    }
    assert(values@.take(values@.len() as int) =~= values@);
}

/// The address of a search with the given query.
pub fn search_url(api_url: &str, q: &SearchParams) -> (r: String)
    ensures
        r@ == search_url_text(api_url@, *q),
{
    let mut parts: Vec<String> = Vec::new();
    push_encoded(&mut parts, "was=", &q.was);
    push_encoded(&mut parts, "wo=", &q.wo);
    push_number(&mut parts, "umkreis=", q.umkreis);
    push_number(&mut parts, "size=", q.size);
    push_number(&mut parts, "page=", q.page);
    push_number(&mut parts, "veroeffentlichtseit=", q.veroeffentlichtseit);
    match &q.arbeitszeit {
        Some(codes) => push_repeated(&mut parts, "arbeitszeit=", codes),
        None => {},
    }
    assert(views(parts@) =~= query_parts(*q));
    let url = String::from_str(api_url).concat("/pc/v4/jobs");
    if parts.len() == 0 {
        url
    } else {
        url.concat("?").concat(join_strings(&parts, "&").as_str())
    }
}

/// The address of the detail record of the listing `reference`.
pub fn detail_url(api_url: &str, reference: &str) -> (r: String)
    ensures
        r@ == detail_url_text(api_url@, reference@),
{
    String::from_str(api_url).concat("/pc/v4/jobdetails/").concat(url_encode(reference).as_str())
}

/// Whether an HTTP status reports success.
pub open spec fn is_success_status(status: u16) -> bool {
    200 <= status && status <= 299
}

/// Accepts the body of an answer with a success status; any other status is
/// an error that carries it.
pub fn check_response(status: u16, body: String) -> (r: Result<String, ApiError>)
    ensures
        is_success_status(status) ==> r == Ok::<String, ApiError>(body),
        !is_success_status(status) ==> r == Err::<String, ApiError>(ApiError::Status { status }),
{
    if 200 <= status && status <= 299 {
        Ok(body)
    } else {
        Err(ApiError::Status { status })
    }
}

/// The error for a body that could not be decoded: the decoder's message and
/// the first characters of the body.
pub fn decode_failure(message: String, body: &str) -> (r: ApiError)
    ensures
        r == (ApiError::Decode { message, body_excerpt: r->body_excerpt }),
        r->body_excerpt@ == prefix_chars(body@, BODY_EXCERPT_CHARS as nat),
{
    ApiError::Decode { message, body_excerpt: prefix_of(body, BODY_EXCERPT_CHARS) }
}

/// The query of the connectivity probe: one listing around Berlin.
pub fn probe_search_params() -> (q: SearchParams)
    ensures
        q.was is None,
        opt_view(q.wo) == Some("Berlin"@),
        q.umkreis is None,
        q.size == Some(1u64),
        q.page is None,
        q.veroeffentlichtseit is None,
        q.arbeitszeit is None,
{
    SearchParams {
        was: None,
        wo: Some(String::from_str("Berlin")),
        umkreis: None,
        size: Some(1),
        page: None,
        veroeffentlichtseit: None,
        arbeitszeit: None,
    }
}

} // verus!
