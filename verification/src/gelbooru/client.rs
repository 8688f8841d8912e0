//! The Gelbooru backend: its rules and its requests.
use super::model::{GelbooruPost, GelbooruRating, GelbooruResponse};
use crate::shared::client::{
    common_query, ClientInformation, ClientQueryDispatcher, ClientTypes, DispatcherTrait,
    ImplementedWithCommonQuery, QueryBuilderRules, QueryDispatcher, QueryLike, QueryMode,
    QueryView, ValidationType, WithCommonQuery,
};
use crate::shared::model::ValidationError;
use crate::shared::request::{
    new_header_map, no_headers, push_pair, query_pairs, HttpRequest, HttpRequestView, QueryVec,
};
use crate::shared::text::{decimal, decimal_string, glue};
use crate::shared::{first_of, first_post, is_success, status_is_success, Reading};
use vstd::prelude::*;

verus! {

/// Stands for the Gelbooru backend.
#[derive(Debug, Clone, Copy)]
pub struct GelbooruClient;

impl ClientInformation for GelbooruClient {
    const URL: &'static str = "https://gelbooru.com";

    const SORT: &'static str = "sort:";

    open spec fn url_text() -> Seq<char> {
        "https://gelbooru.com"@
    }

    open spec fn sort_text() -> Seq<char> {
        "sort:"@
    }

    fn url() -> (s: &'static str) {
        Self::URL
    }

    fn sort() -> (s: &'static str) {
        Self::SORT
    }
}

impl ClientTypes for GelbooruClient {
    type Rating = GelbooruRating;

    type Post = GelbooruPost;
}

impl WithCommonQuery for GelbooruClient {
    open spec fn query_type() -> QueryLike {
        QueryLike::Gelbooru
    }

    fn common_query_type() -> (like: QueryLike) {
        QueryLike::Gelbooru
    }
}

impl QueryBuilderRules for GelbooruClient {
    /// Gelbooru takes any number of plain tags.
    open spec fn plain_tag_limit() -> Option<nat> {
        None
    }

    fn validate(validates: ValidationType<'_, Self>) -> (checked: Result<(), ValidationError>) {
        Ok(())
    }
}

/// The request that looks up the post with this id at Gelbooru, for a client
/// with this base URL and this query.
pub open spec fn get_by_id_plan(
    url: Seq<char>,
    query: QueryView<GelbooruRating>,
    id: u32,
) -> HttpRequestView {
    HttpRequestView {
        url: url + "/index.php"@,
        query: common_query(
            QueryLike::Gelbooru,
            query,
            GelbooruClient::sort_text(),
            QueryMode::Single(id),
        ),
        headers: no_headers(),
    }
}

/// The request that asks Gelbooru for the posts that match this query, for a
/// client with this base URL.
pub open spec fn get_plan(url: Seq<char>, query: QueryView<GelbooruRating>) -> HttpRequestView {
    HttpRequestView {
        url: url + "/index.php"@,
        query: common_query(
            QueryLike::Gelbooru,
            query,
            GelbooruClient::sort_text(),
            QueryMode::Multiple,
        ),
        headers: no_headers(),
    }
}

/// The request that asks Gelbooru for tags that complete `input`, for a client
/// with this base URL and this query.
pub open spec fn get_autocomplete_plan(
    url: Seq<char>,
    query: QueryView<GelbooruRating>,
    input: Seq<char>,
) -> HttpRequestView {
    HttpRequestView {
        url: url + "/index.php"@,
        query: seq![
            ("limit"@, decimal(query.limit as nat)),
            ("page"@, "autocomplete2"@),
            ("type"@, "tag_query"@),
            ("term"@, input),
        ],
        headers: no_headers(),
    }
}

impl DispatcherTrait<GelbooruClient> for ClientQueryDispatcher<GelbooruClient> {
    type Listing = GelbooruResponse;

    type Lookup = GelbooruResponse;

    open spec fn get_by_id_plan(&self, id: u32) -> HttpRequestView {
        get_by_id_plan(self.builder.url@, self.query@, id)
    }

    fn get_by_id_request(&self, id: u32) -> (request: HttpRequest) {
        HttpRequest {
            url: glue(self.builder.url.as_str(), "/index.php"),
            query: Self::get_query(self.query.as_builder(), QueryMode::Single(id)),
            headers: new_header_map(),
        }
    }

    open spec fn get_plan(&self) -> HttpRequestView {
        get_plan(self.builder.url@, self.query@)
    }

    fn get_request(&self) -> (request: HttpRequest) {
        HttpRequest {
            url: glue(self.builder.url.as_str(), "/index.php"),
            query: Self::get_query(self.query.as_builder(), QueryMode::Multiple),
            headers: new_header_map(),
        }
    }

    open spec fn listed(listing: GelbooruResponse) -> Seq<GelbooruPost> {
        listing.posts@
    }

    fn posts(listing: GelbooruResponse) -> (posts: Vec<GelbooruPost>) {
        listing.posts
    }

    open spec fn looked_up(lookup: GelbooruResponse) -> Option<GelbooruPost> {
        first_of(lookup.posts@)
    }

    fn post(lookup: GelbooruResponse) -> (post: Option<GelbooruPost>) {
        first_post(lookup.posts)
    }

    open spec fn reading_of(status: u16) -> Reading {
        if status_is_success(status) {
            Reading::Answer
        } else {
            Reading::Nothing
        }
    }

    fn reading(status: u16) -> (reading: Reading) {
        if is_success(status) {
            Reading::Answer
        } else {
            Reading::Nothing
        }
    }
}

impl QueryDispatcher<GelbooruClient> for ClientQueryDispatcher<GelbooruClient> {
    open spec fn get_autocomplete_plan(&self, input: Seq<char>) -> HttpRequestView {
        get_autocomplete_plan(self.builder.url@, self.query@, input)
    }

    fn get_autocomplete_request(&self, input: &str) -> (request: HttpRequest) {
        let url = glue(self.builder.url.as_str(), "/index.php");
        let mut query: QueryVec = Vec::new();
        assert(query_pairs(query@) =~= Seq::empty());
        push_pair(&mut query, "limit", decimal_string(self.query.limit()));
        push_pair(&mut query, "page", "autocomplete2".to_owned());
        push_pair(&mut query, "type", "tag_query".to_owned());
        push_pair(&mut query, "term", input.to_owned());
        assert(query_pairs(query@) =~= get_autocomplete_plan(
            self.builder.url@,
            self.query@,
            input@,
        ).query);
        HttpRequest { url, query, headers: new_header_map() }
    }
}

} // verus!
