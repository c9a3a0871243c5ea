//! The headers of a response, chosen by the headers of the request.

use axum::http::HeaderMap;
use vstd::prelude::*;

verus! {

/// `http::HeaderMap`, the headers of a request or a response.
#[verifier::external_type_specification]
#[verifier::external_body]
#[verifier::reject_recursive_types(T)]
pub struct ExHeaderMap<T>(axum::http::HeaderMap<T>);

/// `http::HeaderValue`, the value of one header.
#[verifier::external_type_specification]
#[verifier::external_body]
pub struct ExHeaderValue(axum::http::HeaderValue);

/// The names of the headers in a map, in lower case.
pub uninterp spec fn header_names(headers: HeaderMap) -> Set<Seq<char>>;

/// Whether `name` is a header name of lower case letters, digits and hyphens.
pub open spec fn is_plain_name(name: Seq<char>) -> bool {
    &&& name.len() > 0
    &&& forall|i: int|
        0 <= i < name.len() ==> 'a' <= #[trigger] name[i] <= 'z' || '0' <= name[i] <= '9' || name[i]
            == '-'
}

/// `HeaderMap::contains_key` finds a header by its name in lower case.
#[verifier::external_body]
pub(crate) fn contains_header(headers: &HeaderMap, name: &str) -> (r: bool)
    requires
        is_plain_name(name@),
    ensures
        r == header_names(*headers).contains(name@),
{
    headers.contains_key(name)
}

/// The header that Cloudflare adds to each request that it passes on.
pub const CLOUDFLARE_HEADER: &'static str = "cf-ray";

/// What the page is.
pub const HTML_CONTENT_TYPE: &'static str = "text/html; charset=utf-8";

/// What the page is declared as to Cloudflare.
pub const UNBUFFERED_CONTENT_TYPE: &'static str = "application/grpc";

/// The names and values of response headers.
pub open spec fn header_texts(headers: Seq<(&'static str, &'static str)>) -> Seq<
    (Seq<char>, Seq<char>),
> {
    headers.map_values(|h: (&'static str, &'static str)| (h.0@, h.1@))
}

/// The headers of the page, in order.
pub open spec fn page_headers(is_cloudflare: bool) -> Seq<(Seq<char>, Seq<char>)> {
    seq![
        (
            "content-type"@,
            if is_cloudflare {
                UNBUFFERED_CONTENT_TYPE@
            } else {
                HTML_CONTENT_TYPE@
            },
        ),
        ("x-original-content-type"@, HTML_CONTENT_TYPE@),
        ("cache-control"@, "no-store, no-cache, must-revalidate, max-age=0"@),
    ]
}

/// Whether a request came through Cloudflare.
pub fn is_cloudflare(headers: &HeaderMap) -> (r: bool)
    ensures
        r == header_names(*headers).contains(CLOUDFLARE_HEADER@),
{
    proof {
        reveal_strlit("cf-ray");
    }
    contains_header(headers, CLOUDFLARE_HEADER)
}

/// The headers of the page for a request that did or did not come through Cloudflare.
pub fn response_headers(is_cloudflare: bool) -> (r: Vec<(&'static str, &'static str)>)
    ensures
        header_texts(r@) == page_headers(is_cloudflare),
{
    let content_type = if is_cloudflare {
        UNBUFFERED_CONTENT_TYPE
    } else {
        HTML_CONTENT_TYPE
    };
    let headers = vec![
        ("content-type", content_type),
        ("x-original-content-type", HTML_CONTENT_TYPE),
        ("cache-control", "no-store, no-cache, must-revalidate, max-age=0"),
    ];
    assert(header_texts(headers@) =~= page_headers(is_cloudflare));
    headers
}

/// The headers that answer a request with the given headers.
pub fn answer_headers(headers: &HeaderMap) -> (r: Vec<(&'static str, &'static str)>)
    ensures
        header_texts(r@) == page_headers(header_names(*headers).contains(CLOUDFLARE_HEADER@)),
{
    response_headers(is_cloudflare(headers))
}

/// A request came through Cloudflare where it has a header `cf-ray`, and only there.
pub proof fn law_cloudflare_header(headers: HeaderMap, r: bool)
    requires
        call_ensures(is_cloudflare, (&headers,), r),
    ensures
        r <==> header_names(headers).contains("cf-ray"@),
{
}

/// Every answer has three headers: what the page is declared as, what it is, and that it
/// is not to be stored. It is declared as something else to Cloudflare only.
pub proof fn law_answer_to_a_request(
    headers: HeaderMap,
    r: Vec<(&'static str, &'static str)>,
)
    requires
        call_ensures(answer_headers, (&headers,), r),
    ensures
        r@.len() == 3,
        r@[0].0@ == "content-type"@,
        header_names(headers).contains("cf-ray"@) ==> r@[0].1@ == "application/grpc"@,
        !header_names(headers).contains("cf-ray"@) ==> r@[0].1@ == "text/html; charset=utf-8"@,
        r@[1].0@ == "x-original-content-type"@,
        r@[1].1@ == "text/html; charset=utf-8"@,
        r@[2].0@ == "cache-control"@,
        r@[2].1@ == "no-store, no-cache, must-revalidate, max-age=0"@,
{
    let cloudflare = header_names(headers).contains("cf-ray"@);
    assert(header_texts(r@).len() == page_headers(cloudflare).len());
    assert(header_texts(r@)[0] == page_headers(cloudflare)[0]);
    assert(header_texts(r@)[1] == page_headers(cloudflare)[1]);
    assert(header_texts(r@)[2] == page_headers(cloudflare)[2]);
}

/// `response_headers` gives the headers of the answer to a request that did, or did not,
/// come through Cloudflare.
pub proof fn law_headers_go_by_cloudflare(
    headers: HeaderMap,
    cloudflare: bool,
    a: Vec<(&'static str, &'static str)>,
    r: Vec<(&'static str, &'static str)>,
)
    requires
        call_ensures(answer_headers, (&headers,), a),
        call_ensures(response_headers, (cloudflare,), r),
        cloudflare == header_names(headers).contains("cf-ray"@),
    ensures
        r@.len() == a@.len(),
        forall|i: int|
            0 <= i < r@.len() ==> (#[trigger] r@[i]).0@ == a@[i].0@ && r@[i].1@ == a@[i].1@,
{
    assert(header_texts(r@) == header_texts(a@));
    assert(header_texts(r@).len() == r@.len() && header_texts(a@).len() == a@.len());
    assert forall|i: int| 0 <= i < r@.len() implies (#[trigger] r@[i]).0@ == a@[i].0@ && r@[i].1@
        == a@[i].1@ by {
        assert(header_texts(r@)[i] == header_texts(a@)[i]);
    }
}

} // verus!
