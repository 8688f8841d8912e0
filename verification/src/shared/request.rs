//! What a dispatcher hands to the transport: where to ask, with which
//! parameters and which headers.
use reqwest::header::{HeaderMap, HeaderValue, USER_AGENT};
use vstd::prelude::*;

verus! {

/// The header map of the transport. What one holds is `header_values` of it.
#[verifier::external_type_specification]
#[verifier::external_body]
#[verifier::reject_recursive_types(T)]
pub struct ExHeaderMap<T>(HeaderMap<T>);

/// The value of a header, as the header map of the transport holds it.
#[verifier::external_type_specification]
#[verifier::external_body]
pub struct ExHeaderValue(HeaderValue);

/// The headers that a map holds: under each header name, as
/// `HeaderName::as_str` gives it, the values that `HeaderMap::get_all` yields
/// for it, in that order, each as the bytes of `HeaderValue::as_bytes`.
pub uninterp spec fn header_values(headers: HeaderMap) -> Map<Seq<char>, Seq<Seq<u8>>>;

/// Whether a header value may hold this character: visible ASCII, a space or
/// a tab.
pub open spec fn is_header_char(c: char) -> bool {
    (32 <= (c as u32) && (c as u32) < 127) || c == '\t'
}

/// Whether a text can stand as a header value.
pub open spec fn is_header_text(text: Seq<char>) -> bool {
    forall|i: int| 0 <= i < text.len() ==> is_header_char(#[trigger] text[i])
}

/// The bytes of a text of ASCII characters.
pub open spec fn ascii_bytes(text: Seq<char>) -> Seq<u8> {
    Seq::new(text.len(), |i: int| text[i] as u8)
}

/// The most header names that a map may hold when one more is inserted.
pub const HEADER_NAMES_MAX: usize = 1024;

/// `HeaderMap::new`, which makes a map without capacity and cannot fail: the
/// map holds no header.
#[verifier::external_body]
pub(crate) fn new_header_map() -> (headers: HeaderMap)
    ensures
        header_values(headers) == no_headers(),
{
    HeaderMap::new()
}

/// `HeaderMap::insert` under the name `USER_AGENT`, whose text is
/// `user-agent`, of the value that `HeaderValue::from_static` makes of
/// `value`.
///
/// `from_static` panics on a byte that is not visible ASCII, a space or a tab,
/// and keeps the bytes that it is given. `insert` panics where the map would
/// have to grow past 32768 slots, which a map of fewer than 6554 names never
/// has to; this contract asks for fewer than `HEADER_NAMES_MAX`. Where the
/// name was absent it is added with this one value; where it was present,
/// this value takes the place of all that it had. No other name is touched.
#[verifier::external_body]
pub(crate) fn insert_user_agent(headers: &mut HeaderMap, value: &'static str)
    requires
        is_header_text(value@),
        header_values(*old(headers)).dom().finite(),
        header_values(*old(headers)).dom().len() < HEADER_NAMES_MAX,
    ensures
        header_values(*final(headers)) == header_values(*old(headers)).insert(
            "user-agent"@,
            seq![ascii_bytes(value@)],
        ),
{
    headers.insert(USER_AGENT, HeaderValue::from_static(value));
}

/// The headers of a request that sets none.
pub open spec fn no_headers() -> Map<Seq<char>, Seq<Seq<u8>>> {
    Map::empty()
}

/// The parameters of a request's query string: names and values, in order.
pub type QueryVec = Vec<(String, String)>;

/// What a parameter list holds.
pub open spec fn query_pairs(query: Seq<(String, String)>) -> Seq<(Seq<char>, Seq<char>)> {
    query.map_values(|pair: (String, String)| (pair.0@, pair.1@))
}

/// A `GET` request, described for the transport that will send it.
#[derive(Debug)]
pub struct HttpRequest {
    /// The address, without a query string.
    pub url: String,
    /// The parameters of the query string, in order.
    pub query: QueryVec,
    /// The headers to set.
    pub headers: HeaderMap,
}

/// What an `HttpRequest` holds.
pub struct HttpRequestView {
    pub url: Seq<char>,
    pub query: Seq<(Seq<char>, Seq<char>)>,
    pub headers: Map<Seq<char>, Seq<Seq<u8>>>,
}

impl View for HttpRequest {
    type V = HttpRequestView;

    open spec fn view(&self) -> HttpRequestView {
        HttpRequestView {
            url: self.url@,
            query: query_pairs(self.query@),
            headers: header_values(self.headers),
        }
    }
}

/// Appends one parameter to a list.
pub fn push_pair(query: &mut QueryVec, name: &str, value: String)
    ensures
        query_pairs(final(query)@) == query_pairs(old(query)@).push((name@, value@)),
{
    query.push((name.to_owned(), value));
    assert(query_pairs(query@) =~= query_pairs(old(query)@).push((name@, value@)));
}

} // verus!
