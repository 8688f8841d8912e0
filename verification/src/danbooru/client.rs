//! The Danbooru backend: its rules, its requests and its errors.
use super::{DanbooruPost, DanbooruRating};
use crate::shared::client::{
    ClientInformation, ClientQueryDispatcher, ClientTypes, DispatcherTrait, QueryBuilderRules,
    QueryDispatcher, QueryView, ValidationType,
};
use crate::shared::model::{unpacked, ValidationError};
use crate::shared::request::{
    ascii_bytes, header_values, insert_user_agent, is_header_char, is_header_text, new_header_map,
    no_headers, push_pair, query_pairs, HttpRequest, HttpRequestView, QueryVec,
};
use crate::shared::text::{decimal, decimal_string, glue, same_text};
use crate::shared::{is_success, status_is_success, BooruError, Reading};
use reqwest::header::HeaderMap;
use vstd::prelude::*;

verus! {

/// Stands for the Danbooru backend.
#[derive(Debug, Clone, Copy)]
pub struct DanbooruClient;

impl ClientInformation for DanbooruClient {
    const URL: &'static str = "https://danbooru.donmai.us";

    const SORT: &'static str = "order:";

    open spec fn url_text() -> Seq<char> {
        "https://danbooru.donmai.us"@
    }

    open spec fn sort_text() -> Seq<char> {
        "order:"@
    }

    fn url() -> (s: &'static str) {
        Self::URL
    }

    fn sort() -> (s: &'static str) {
        Self::SORT
    }
}

impl ClientTypes for DanbooruClient {
    type Rating = DanbooruRating;

    type Post = DanbooruPost;
}

/// The most plain tags that a query for Danbooru may hold. Danbooru lets its
/// members search for two tags at once, and this library holds every query to
/// that: a query with more is refused before anything is sent.
pub const PLAIN_TAG_LIMIT: usize = 2;

impl QueryBuilderRules for DanbooruClient {
    open spec fn plain_tag_limit() -> Option<nat> {
        Some(PLAIN_TAG_LIMIT as nat)
    }

    fn validate(validates: ValidationType<'_, Self>) -> (checked: Result<(), ValidationError>) {
        match validates {
            ValidationType::Tags(tags) => {
                if tags.count_plain() <= PLAIN_TAG_LIMIT {
                    Ok(())
                } else {
                    Err(ValidationError::TooManyTags)
                }
            },
        }
    }
}

/// Why Danbooru refused a request.
#[derive(Debug, Clone, Copy, PartialEq, Eq, Structural)]
pub enum DanbooruError {
    /// The query held more tags than the account may search for at once.
    TagLimitError,
}

impl DanbooruError {
    /// The word by which Danbooru names this error in the body of its answer.
    pub open spec fn code(self) -> Seq<char> {
        "PostQuery::TagLimitError"@
    }

    /// The error that Danbooru names by `code`, if it is a known one.
    pub open spec fn of_code(code: Seq<char>) -> Option<DanbooruError> {
        if code == DanbooruError::TagLimitError.code() {
            Some(DanbooruError::TagLimitError)
        } else {
            None
        }
    }

    /// Reads the `error` field of the body of a refused request.
    pub fn from_code(code: &str) -> (error: Option<DanbooruError>)
        ensures
            error == Self::of_code(code@),
    {
        if same_text(code, "PostQuery::TagLimitError") {
            Some(DanbooruError::TagLimitError)
        } else {
            None
        }
    }

    /// The error of a request that Danbooru refused, from what came of
    /// reading its account: the error that the account names, or the failure
    /// of the transport where the body names none that is known.
    pub fn refused(decoded: Result<DanbooruError, reqwest::Error>) -> (error: BooruError)
        ensures
            error == match decoded {
                Ok(known) => BooruError::Danbooru(known),
                Err(cause) => BooruError::Reqwest(cause),
            },
    {
        match decoded {
            Ok(known) => BooruError::Danbooru(known),
            Err(cause) => BooruError::Reqwest(cause),
        }
    }

    /// The name of this error.
    pub open spec fn name(self) -> Seq<char> {
        "TagLimitError"@
    }

    pub fn to_string(&self) -> (s: String)
        ensures
            s@ == self.name(),
    {
        "TagLimitError".to_owned()
    }
}

/// The user agent that every request to Danbooru names. Danbooru turns away
/// the clients that name themselves as what they are.
pub const USER_AGENT_VALUE: &'static str = "PostmanRuntime/7.30.0";

/// The headers of a request to Danbooru: the user agent, and nothing else.
pub open spec fn danbooru_headers() -> Map<Seq<char>, Seq<Seq<u8>>> {
    no_headers().insert("user-agent"@, seq![ascii_bytes(USER_AGENT_VALUE@)])
}

/// The headers that every request to Danbooru carries.
pub fn get_headers() -> (headers: HeaderMap)
    ensures
        header_values(headers) == danbooru_headers(),
{
    let mut headers = new_header_map();
    proof {
        reveal_strlit("PostmanRuntime/7.30.0");
        assert(is_header_text(USER_AGENT_VALUE@)) by {
            assert forall|i: int| 0 <= i < USER_AGENT_VALUE@.len() implies is_header_char(
                #[trigger] USER_AGENT_VALUE@[i],
            ) by {
                assert(USER_AGENT_VALUE@.len() == 21);
            }
        }
        assert(no_headers().dom() =~= Set::empty());
    }
    insert_user_agent(&mut headers, USER_AGENT_VALUE);
    headers
}

/// The request that looks up the post with this id at Danbooru, for a client
/// with this base URL and this query.
pub open spec fn get_by_id_plan(
    url: Seq<char>,
    query: QueryView<DanbooruRating>,
    id: u32,
) -> HttpRequestView {
    HttpRequestView {
        url: url + "/posts/"@ + decimal(id as nat) + ".json"@,
        query: Seq::empty(),
        headers: danbooru_headers(),
    }
}

/// The request that asks Danbooru for the posts that match this query, for a
/// client with this base URL.
pub open spec fn get_plan(url: Seq<char>, query: QueryView<DanbooruRating>) -> HttpRequestView {
    HttpRequestView {
        url: url + "/posts.json"@,
        query: seq![
            ("limit"@, decimal(query.limit as nat)),
            ("tags"@, unpacked(query.tags, DanbooruClient::sort_text())),
        ],
        headers: danbooru_headers(),
    }
}

/// The request that asks Danbooru for tags that complete `input`, for a client
/// with this base URL and this query.
pub open spec fn get_autocomplete_plan(
    url: Seq<char>,
    query: QueryView<DanbooruRating>,
    input: Seq<char>,
) -> HttpRequestView {
    HttpRequestView {
        url: url + "/autocomplete.json"@,
        query: seq![
            ("limit"@, decimal(query.limit as nat)),
            ("search[type]"@, "tag_query"@),
            ("search[query]"@, input),
            ("version"@, "1"@),
        ],
        headers: danbooru_headers(),
    }
}

impl DispatcherTrait<DanbooruClient> for ClientQueryDispatcher<DanbooruClient> {
    type Listing = Vec<DanbooruPost>;

    type Lookup = DanbooruPost;

    open spec fn get_by_id_plan(&self, id: u32) -> HttpRequestView {
        get_by_id_plan(self.builder.url@, self.query@, id)
    }

    fn get_by_id_request(&self, id: u32) -> (request: HttpRequest) {
        let mut url = glue(self.builder.url.as_str(), "/posts/");
        url.append(decimal_string(id).as_str());
        url.append(".json");
        let query: QueryVec = Vec::new();
        assert(query_pairs(query@) =~= Seq::empty());
        HttpRequest { url, query, headers: get_headers() }
    }

    open spec fn get_plan(&self) -> HttpRequestView {
        get_plan(self.builder.url@, self.query@)
    }

    fn get_request(&self) -> (request: HttpRequest) {
        let url = glue(self.builder.url.as_str(), "/posts.json");
        let mut query: QueryVec = Vec::new();
        assert(query_pairs(query@) =~= Seq::empty());
        push_pair(&mut query, "limit", decimal_string(self.query.limit()));
        push_pair(&mut query, "tags", self.query.tags().unpack());
        assert(query_pairs(query@) =~= get_plan(self.builder.url@, self.query@).query);
        HttpRequest { url, query, headers: get_headers() }
    }

    open spec fn listed(listing: Vec<DanbooruPost>) -> Seq<DanbooruPost> {
        listing@
    }

    fn posts(listing: Vec<DanbooruPost>) -> (posts: Vec<DanbooruPost>) {
        listing
    }

    open spec fn looked_up(lookup: DanbooruPost) -> Option<DanbooruPost> {
        Some(lookup)
    }

    fn post(lookup: DanbooruPost) -> (post: Option<DanbooruPost>) {
        Some(lookup)
    }

    open spec fn reading_of(status: u16) -> Reading {
        if status_is_success(status) {
            Reading::Answer
        } else {
            Reading::Refusal
        }
    }

    fn reading(status: u16) -> (reading: Reading) {
        if is_success(status) {
            Reading::Answer
        } else {
            Reading::Refusal
        }
    }
}

impl QueryDispatcher<DanbooruClient> for ClientQueryDispatcher<DanbooruClient> {
    open spec fn get_autocomplete_plan(&self, input: Seq<char>) -> HttpRequestView {
        get_autocomplete_plan(self.builder.url@, self.query@, input)
    }

    fn get_autocomplete_request(&self, input: &str) -> (request: HttpRequest) {
        let url = glue(self.builder.url.as_str(), "/autocomplete.json");
        let mut query: QueryVec = Vec::new();
        assert(query_pairs(query@) =~= Seq::empty());
        push_pair(&mut query, "limit", decimal_string(self.query.limit()));
        push_pair(&mut query, "search[type]", "tag_query".to_owned());
        push_pair(&mut query, "search[query]", input.to_owned());
        push_pair(&mut query, "version", "1".to_owned());
        assert(query_pairs(query@) =~= get_autocomplete_plan(
            self.builder.url@,
            self.query@,
            input@,
        ).query);
        HttpRequest { url, query, headers: get_headers() }
    }
}

} // verus!
