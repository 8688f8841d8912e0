//! The Safebooru backend: its rules and its requests.
use super::model::{SafebooruPost, SafebooruRating};
use crate::shared::client::{
    common_query, ClientInformation, ClientQueryDispatcher, ClientTypes, DispatcherTrait,
    ImplementedWithCommonQuery, QueryBuilderRules, QueryDispatcher, QueryLike, QueryMode,
    QueryView, ValidationType, WithCommonQuery,
};
use crate::shared::model::ValidationError;
use crate::shared::request::{
    new_header_map, no_headers, push_pair, query_pairs, HttpRequest, HttpRequestView, QueryVec,
};
use crate::shared::text::glue;
use crate::shared::{first_of, first_post, is_success, status_is_success, Reading};
use vstd::prelude::*;

verus! {

/// Stands for the Safebooru backend.
#[derive(Debug, Clone, Copy)]
pub struct SafebooruClient;

impl ClientInformation for SafebooruClient {
    const URL: &'static str = "https://safebooru.org";

    const SORT: &'static str = "sort:";

    open spec fn url_text() -> Seq<char> {
        "https://safebooru.org"@
    }

    open spec fn sort_text() -> Seq<char> {
        "sort:"@
    }

    fn url() -> (s: &'static str) {
        Self::URL
    }

    fn sort() -> (s: &'static str) {
        Self::SORT
    }
}

impl ClientTypes for SafebooruClient {
    type Rating = SafebooruRating;

    type Post = SafebooruPost;
}

impl WithCommonQuery for SafebooruClient {
    open spec fn query_type() -> QueryLike {
        QueryLike::Gelbooru
    }

    fn common_query_type() -> (like: QueryLike) {
        QueryLike::Gelbooru
    }
}

impl QueryBuilderRules for SafebooruClient {
    /// Safebooru takes any number of plain tags.
    open spec fn plain_tag_limit() -> Option<nat> {
        None
    }

    fn validate(validates: ValidationType<'_, Self>) -> (checked: Result<(), ValidationError>) {
        Ok(())
    }
}

/// The request that looks up the post with this id at Safebooru, for a client
/// with this base URL and this query.
pub open spec fn get_by_id_plan(
    url: Seq<char>,
    query: QueryView<SafebooruRating>,
    id: u32,
) -> HttpRequestView {
    HttpRequestView {
        url: url + "/index.php"@,
        query: common_query(
            QueryLike::Gelbooru,
            query,
            SafebooruClient::sort_text(),
            QueryMode::Single(id),
        ),
        headers: no_headers(),
    }
}

/// The request that asks Safebooru for the posts that match this query, for a
/// client with this base URL.
pub open spec fn get_plan(url: Seq<char>, query: QueryView<SafebooruRating>) -> HttpRequestView {
    HttpRequestView {
        url: url + "/index.php"@,
        query: common_query(
            QueryLike::Gelbooru,
            query,
            SafebooruClient::sort_text(),
            QueryMode::Multiple,
        ),
        headers: no_headers(),
    }
}

/// The request that asks Safebooru for tags that complete `input`, for a client
/// with this base URL and this query.
pub open spec fn get_autocomplete_plan(
    url: Seq<char>,
    query: QueryView<SafebooruRating>,
    input: Seq<char>,
) -> HttpRequestView {
    HttpRequestView {
        url: url + "/autocomplete.php"@,
        query: seq![("q"@, input)],
        headers: no_headers(),
    }
}

impl DispatcherTrait<SafebooruClient> for ClientQueryDispatcher<SafebooruClient> {
    type Listing = Vec<SafebooruPost>;

    type Lookup = Vec<SafebooruPost>;

    open spec fn get_by_id_plan(&self, id: u32) -> HttpRequestView {
        get_by_id_plan(self.builder.url@, self.query@, id)
    }

    fn get_by_id_request(&self, id: u32) -> (request: HttpRequest) {
        HttpRequest {
            url: glue(self.builder.url.as_str(), "/index.php"),
            query: Self::get_query(self.query.as_builder(), QueryMode::Single(id)),
            headers: new_header_map(),
        }
    }

    open spec fn get_plan(&self) -> HttpRequestView {
        get_plan(self.builder.url@, self.query@)
    }

    fn get_request(&self) -> (request: HttpRequest) {
        HttpRequest {
            url: glue(self.builder.url.as_str(), "/index.php"),
            query: Self::get_query(self.query.as_builder(), QueryMode::Multiple),
            headers: new_header_map(),
        }
    }

    open spec fn listed(listing: Vec<SafebooruPost>) -> Seq<SafebooruPost> {
        listing@
    }

    fn posts(listing: Vec<SafebooruPost>) -> (posts: Vec<SafebooruPost>) {
        listing
    }

    open spec fn looked_up(lookup: Vec<SafebooruPost>) -> Option<SafebooruPost> {
        first_of(lookup@)
    }

    fn post(lookup: Vec<SafebooruPost>) -> (post: Option<SafebooruPost>) {
        first_post(lookup)
    }

    open spec fn reading_of(status: u16) -> Reading {
        if status_is_success(status) {
            Reading::Answer
        } else {
            Reading::Nothing
        }
    }

    fn reading(status: u16) -> (reading: Reading) {
        if is_success(status) {
            Reading::Answer
        } else {
            Reading::Nothing
        }
    }
}

impl QueryDispatcher<SafebooruClient> for ClientQueryDispatcher<SafebooruClient> {
    open spec fn get_autocomplete_plan(&self, input: Seq<char>) -> HttpRequestView {
        get_autocomplete_plan(self.builder.url@, self.query@, input)
    }

    fn get_autocomplete_request(&self, input: &str) -> (request: HttpRequest) {
        let url = glue(self.builder.url.as_str(), "/autocomplete.php");
        let mut query: QueryVec = Vec::new();
        assert(query_pairs(query@) =~= Seq::empty());
        push_pair(&mut query, "q", input.to_owned());
        assert(query_pairs(query@) =~= get_autocomplete_plan(
            self.builder.url@,
            self.query@,
            input@,
        ).query);
        HttpRequest { url, query, headers: new_header_map() }
    }
}

} // verus!
