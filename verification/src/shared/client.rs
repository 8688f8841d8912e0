//! What a backend declares about itself, the query builder, and the
//! dispatcher that binds a validated query to a backend.
use super::model::{plain_count, unpacked, Sort, Tag, TagView, Tags, ValidationError};
use super::request::{push_pair, query_pairs, HttpRequest, HttpRequestView, QueryVec};
use super::text::{decimal, decimal_string};
use super::{status_is_success, Reading};
use crate::generic::{BooruPost, Rating};
use std::marker::PhantomData;
use vstd::prelude::*;

verus! {

/// A rating vocabulary: each rating has a lowercase word for the wire.
pub trait RatingKeyword: Copy {
    /// The word that stands for this rating in a tag.
    spec fn keyword(&self) -> Seq<char>;

    fn as_str(&self) -> (s: &'static str)
        ensures
            s@ == self.keyword(),
    ;
}

/// What can be written as the text of a plain or a blacklisted tag.
pub trait TagText {
    /// The text of the tag.
    spec fn tag_text(&self) -> Seq<char>;

    fn to_tag_text(&self) -> (s: String)
        ensures
            s@ == self.tag_text(),
    ;
}

impl TagText for str {
    open spec fn tag_text(&self) -> Seq<char> {
        self@
    }

    fn to_tag_text(&self) -> (s: String) {
        self.to_owned()
    }
}

impl<S: TagText + ?Sized> TagText for &S {
    open spec fn tag_text(&self) -> Seq<char> {
        (**self).tag_text()
    }

    fn to_tag_text(&self) -> (s: String) {
        (**self).to_tag_text()
    }
}

impl TagText for String {
    open spec fn tag_text(&self) -> Seq<char> {
        self@
    }

    fn to_tag_text(&self) -> (s: String) {
        self.clone()
    }
}

impl TagText for Sort {
    open spec fn tag_text(&self) -> Seq<char> {
        self.keyword()
    }

    fn to_tag_text(&self) -> (s: String) {
        self.to_string()
    }
}

/// Where a backend lives and how it spells a sort directive.
pub trait ClientInformation {
    /// The backend's base URL, without a trailing slash.
    const URL: &'static str;

    /// What stands before the sort key in a sort tag.
    const SORT: &'static str;

    /// The text of the backend's base URL.
    spec fn url_text() -> Seq<char>;

    /// The text that stands before the sort key in a sort tag.
    spec fn sort_text() -> Seq<char>;

    /// The backend's base URL.
    fn url() -> (s: &'static str)
        ensures
            s@ == Self::url_text(),
    ;

    /// What stands before the sort key in a sort tag.
    fn sort() -> (s: &'static str)
        ensures
            s@ == Self::sort_text(),
    ;
}

/// The types that a backend works with.
pub trait ClientTypes {
    /// The backend's own ratings, each reachable from a canonical rating.
    type Rating: RatingKeyword + From<Rating> + std::fmt::Debug;

    /// A post as the backend returns it, which the canonical schema can hold.
    type Post: Into<BooruPost>;
}

/// What a query is checked for before it may be dispatched.
pub enum ValidationType<'a, T: ClientTypes> {
    /// The tags of the query.
    Tags(&'a Tags<T>),
}

/// Whether a backend that allows `limit` plain tags, or any number where
/// there is no limit, accepts these tags.
pub open spec fn within_plain_limit<R>(limit: Option<nat>, tags: Seq<TagView<R>>) -> bool {
    limit matches Some(most) ==> plain_count(tags) <= most
}

/// The rules that a backend holds queries to.
pub trait QueryBuilderRules: ClientTypes + Sized {
    /// The most plain tags that a query may hold; `None` where the backend
    /// sets no limit.
    spec fn plain_tag_limit() -> Option<nat>;

    /// Accepts the tags unless they hold more plain tags than the limit.
    fn validate(validates: ValidationType<'_, Self>) -> (checked: Result<(), ValidationError>)
        ensures
            checked is Ok <==> within_plain_limit(
                Self::plain_tag_limit(),
                validates->Tags_0@,
            ),
            checked is Err ==> checked == Err::<(), ValidationError>(ValidationError::TooManyTags),
    ;
}

/// What a query holds: its tags in the order of their addition, and how many
/// posts it asks for.
pub struct QueryView<R> {
    pub tags: Seq<TagView<R>>,
    pub limit: u32,
}

impl<R> QueryView<R> {
    /// The query with one more tag at its end.
    pub open spec fn with_tag(self, tag: TagView<R>) -> Self {
        QueryView { tags: self.tags.push(tag), limit: self.limit }
    }

    /// The query with another limit.
    pub open spec fn with_limit(self, limit: u32) -> Self {
        QueryView { tags: self.tags, limit }
    }

    /// The query that a new builder holds: no tag, and the default limit.
    pub open spec fn initial() -> Self {
        QueryView { tags: Seq::empty(), limit: DEFAULT_LIMIT }
    }
}

/// How many posts a query asks for unless told otherwise.
pub const DEFAULT_LIMIT: u32 = 100;

/// Collects the tags and the limit of a query for the backend `T`. Nothing is
/// checked while the query is built.
#[derive(Debug)]
pub struct ClientQueryBuilder<T: ClientTypes> {
    pub tags: Tags<T>,
    pub limit: u32,
}

impl<T: ClientTypes> View for ClientQueryBuilder<T> {
    type V = QueryView<T::Rating>;

    open spec fn view(&self) -> QueryView<T::Rating> {
        QueryView { tags: self.tags@, limit: self.limit }
    }
}

impl<T: ClientTypes> Clone for ClientQueryBuilder<T> {
    fn clone(&self) -> (out: Self)
        ensures
            out@ == self@,
    {
        ClientQueryBuilder { tags: self.tags.clone(), limit: self.limit }
    }
}

impl<T: ClientTypes> Default for ClientQueryBuilder<T> {
    fn default() -> (out: Self)
        ensures
            out@ == QueryView::<T::Rating>::initial(),
    {
        Self::new()
    }
}

impl<T: ClientTypes> ClientQueryBuilder<T> {
    /// A query without tags that asks for 100 posts.
    pub fn new() -> (out: Self)
        ensures
            out@ == QueryView::<T::Rating>::initial(),
    {
        let out = ClientQueryBuilder { tags: Tags(Vec::new()), limit: DEFAULT_LIMIT };
        assert(out@.tags =~= Seq::empty());
        out
    }

    /// Adds a tag at the end of the query.
    pub fn any_tag(&mut self, tag: Tag<T>) -> (out: &mut Self)
        ensures
            out@ == old(self)@.with_tag(tag@),
            *final(self) == *final(out),
    {
        self.tags.0.push(tag);
        assert(self@.tags =~= old(self)@.tags.push(tag@));
        self
    }

    /// Asks for posts that carry `tag`.
    pub fn tag<S: TagText>(&mut self, tag: S) -> (out: &mut Self)
        ensures
            out@ == old(self)@.with_tag(TagView::Plain(tag.tag_text())),
            *final(self) == *final(out),
    {
        self.any_tag(Tag::Plain(tag.to_tag_text()))
    }

    /// Asks for the posts in the order of `sort`.
    pub fn sort(&mut self, sort: Sort) -> (out: &mut Self)
        ensures
            out@ == old(self)@.with_tag(TagView::Sort(sort)),
            *final(self) == *final(out),
    {
        self.any_tag(Tag::Sort(sort))
    }

    /// Asks for the posts in random order.
    pub fn random(&mut self) -> (out: &mut Self)
        ensures
            out@ == old(self)@.with_tag(TagView::Sort(Sort::Random)),
            *final(self) == *final(out),
    {
        self.sort(Sort::Random)
    }

    /// Asks for posts of this rating.
    pub fn rating(&mut self, rating: T::Rating) -> (out: &mut Self)
        ensures
            out@ == old(self)@.with_tag(TagView::Rating(rating)),
            *final(self) == *final(out),
    {
        self.any_tag(Tag::Rating(rating))
    }

    /// Asks for posts that do not carry `tag`.
    pub fn blacklist_tag<S: TagText>(&mut self, tag: S) -> (out: &mut Self)
        ensures
            out@ == old(self)@.with_tag(TagView::Blacklist(tag.tag_text())),
            *final(self) == *final(out),
    {
        self.any_tag(Tag::Blacklist(tag.to_tag_text()))
    }

    /// Sets how many posts to ask for. The backends hand out 100 at most; a
    /// larger number is passed on as it is.
    pub fn limit(&mut self, limit: u32) -> (out: &mut Self)
        ensures
            out@ == old(self)@.with_limit(limit),
            *final(self) == *final(out),
    {
        self.limit = limit;
        self
    }
}

/// A query that its backend has accepted. It cannot be changed any more, and
/// a dispatcher takes no other.
#[derive(Debug)]
pub struct ValidatedQuery<T: QueryBuilderRules> {
    query: ClientQueryBuilder<T>,
}

impl<T: QueryBuilderRules> View for ValidatedQuery<T> {
    type V = QueryView<T::Rating>;

    closed spec fn view(&self) -> QueryView<T::Rating> {
        self.query@
    }
}

impl<T: QueryBuilderRules> Clone for ValidatedQuery<T> {
    fn clone(&self) -> (out: Self)
        ensures
            out@ == self@,
    {
        proof {
            use_type_invariant(self);
        }
        ValidatedQuery { query: self.query.clone() }
    }
}

impl<T: QueryBuilderRules> ValidatedQuery<T> {
    #[verifier::type_invariant]
    spec fn accepted(self) -> bool {
        within_plain_limit(T::plain_tag_limit(), self.query@.tags)
    }

    /// The tags of the query, which the backend's rules accept.
    pub fn tags(&self) -> (tags: &Tags<T>)
        ensures
            tags@ == self@.tags,
            within_plain_limit(T::plain_tag_limit(), tags@),
    {
        proof {
            use_type_invariant(self);
        }
        &self.query.tags
    }

    /// How many posts the query asks for.
    pub fn limit(&self) -> (limit: u32)
        ensures
            limit == self@.limit,
    {
        self.query.limit
    }

    /// The query as a builder holds it.
    pub fn as_builder(&self) -> (query: &ClientQueryBuilder<T>)
        ensures
            query@ == self@,
            within_plain_limit(T::plain_tag_limit(), query@.tags),
    {
        proof {
            use_type_invariant(self);
        }
        &self.query
    }
}

impl<T: QueryBuilderRules> ClientQueryBuilder<T> {
    /// Holds the query to the rules of its backend. This is the one step of
    /// building a query that can fail.
    pub fn validate(&self) -> (checked: Result<ValidatedQuery<T>, ValidationError>)
        ensures
            checked is Ok <==> within_plain_limit(T::plain_tag_limit(), self@.tags),
            checked matches Ok(query) ==> query@ == self@,
            checked matches Err(error) ==> error == ValidationError::TooManyTags,
    {
        match T::validate(ValidationType::Tags(&self.tags)) {
            Ok(()) => Ok(ValidatedQuery { query: self.clone() }),
            Err(error) => Err(error),
        }
    }
}

/// The settings of a client for the backend `T`.
#[derive(Debug)]
pub struct ClientBuilder<T> {
    /// The base URL that requests go to.
    pub url: String,
    /// An API key, kept for the backend but sent with no request.
    pub key: Option<String>,
    /// The user of the API key, kept for the backend but sent with no request.
    pub user: Option<String>,
    pub _marker: PhantomData<T>,
}

impl<T> Clone for ClientBuilder<T> {
    fn clone(&self) -> (out: Self)
        ensures
            out == *self,
    {
        ClientBuilder {
            url: self.url.clone(),
            key: match &self.key {
                Some(key) => Some(key.clone()),
                None => None,
            },
            user: match &self.user {
                Some(user) => Some(user.clone()),
                None => None,
            },
            _marker: PhantomData,
        }
    }
}

impl<T: ClientInformation> Default for ClientBuilder<T> {
    fn default() -> (out: Self)
        ensures
            out.url@ == T::url_text(),
            out.key is None,
            out.user is None,
    {
        Self::new()
    }
}

impl<T: ClientInformation> ClientBuilder<T> {
    /// Settings that point at the backend's own URL and hold no credentials.
    pub fn new() -> (out: Self)
        ensures
            out.url@ == T::url_text(),
            out.key is None,
            out.user is None,
    {
        ClientBuilder { url: T::url().to_owned(), key: None, user: None, _marker: PhantomData }
    }

    /// Points the client at another base URL.
    pub fn default_url(&mut self, url: &str) -> (out: &mut Self)
        ensures
            out.url@ == url@,
            out.key == old(self).key,
            out.user == old(self).user,
            *final(self) == *final(out),
    {
        self.url = url.to_owned();
        self
    }

    /// Keeps an API key and its user. No request carries them.
    pub fn set_credentials(&mut self, key: String, user: String) -> (out: &mut Self)
        ensures
            out.url == old(self).url,
            out.key == Some(key),
            out.user == Some(user),
            *final(self) == *final(out),
    {
        self.key = Some(key);
        self.user = Some(user);
        self
    }
}

/// A validated query bound to the settings of its backend: what requests are
/// made from.
#[derive(Debug)]
pub struct ClientQueryDispatcher<T: QueryBuilderRules> {
    pub builder: ClientBuilder<T>,
    pub query: ValidatedQuery<T>,
}

impl<T: QueryBuilderRules> ClientBuilder<T> {
    fn create_dispatcher(&self, query: ValidatedQuery<T>) -> (dispatcher: ClientQueryDispatcher<T>)
        ensures
            dispatcher.builder == *self,
            dispatcher.query == query,
    {
        ClientQueryDispatcher { builder: self.clone(), query }
    }

    /// Binds a query to these settings, if the backend accepts the query.
    pub fn query_raw(&self, query: &mut ClientQueryBuilder<T>) -> (bound: Result<
        ClientQueryDispatcher<T>,
        ValidationError,
    >)
        ensures
            *final(query) == *old(query),
            bound is Ok <==> within_plain_limit(T::plain_tag_limit(), old(query)@.tags),
            bound matches Ok(dispatcher) ==> dispatcher.builder == *self && dispatcher.query@
                == old(query)@,
            bound matches Err(error) ==> error == ValidationError::TooManyTags,
    {
        match query.validate() {
            Ok(validated) => Ok(self.create_dispatcher(validated)),
            Err(error) => Err(error),
        }
    }

    /// Builds a query with `query_fn`, starting from the empty one, and binds
    /// what `query_fn` returns to these settings, if the backend accepts it.
    pub fn query<F>(&self, query_fn: F) -> (bound: Result<
        ClientQueryDispatcher<T>,
        ValidationError,
    >) where F: Fn(&mut ClientQueryBuilder<T>) -> &mut ClientQueryBuilder<T>
        requires
            forall|start: &mut ClientQueryBuilder<T>|
                start@ == QueryView::<T::Rating>::initial() ==> call_requires(query_fn, (start,)),
        ensures
            exists|start: &mut ClientQueryBuilder<T>, built: &mut ClientQueryBuilder<T>|
                {
                    &&& start@ == QueryView::<T::Rating>::initial()
                    &&& #[trigger] call_ensures(query_fn, (start,), built)
                    &&& (bound is Ok <==> within_plain_limit(T::plain_tag_limit(), built@.tags))
                    &&& (bound matches Ok(dispatcher) ==> dispatcher.builder == *self
                        && dispatcher.query@ == built@)
                    &&& (bound matches Err(error) ==> error == ValidationError::TooManyTags)
                },
    {
        let mut query = ClientQueryBuilder::<T>::new();
        let built = query_fn(&mut query);
        self.query_raw(built)
    }

    /// Binds the empty query to these settings: enough to look a post up by
    /// its id.
    pub fn dispatch(&self) -> (dispatcher: ClientQueryDispatcher<T>)
        ensures
            dispatcher.builder == *self,
            dispatcher.query@ == QueryView::<T::Rating>::initial(),
    {
        let mut query = ClientQueryBuilder::<T>::new();
        proof {
            let none = Seq::<TagView<T::Rating>>::empty();
            none.lemma_filter_len(|tag: TagView<T::Rating>| tag is Plain);
        }
        match self.query_raw(&mut query) {
            Ok(dispatcher) => dispatcher,
            Err(_) => vstd::pervasive::unreached(),
        }
    }
}

/// Gives the settings of a client for a backend.
pub trait WithClientBuilder<T> {
    /// The URL that the settings start with.
    spec fn builder_url() -> Seq<char>;

    /// Settings that point at the backend's own URL and hold no credentials.
    fn builder() -> (out: ClientBuilder<T>)
        ensures
            out.url@ == Self::builder_url(),
            out.key is None,
            out.user is None,
    ;
}

impl<T: ClientInformation + ClientTypes> WithClientBuilder<T> for T {
    open spec fn builder_url() -> Seq<char> {
        T::url_text()
    }

    fn builder() -> (out: ClientBuilder<T>) {
        ClientBuilder::new()
    }
}

/// The layouts of query parameters that several backends share.
#[derive(Debug, Clone, Copy, PartialEq, Eq, Structural)]
pub enum QueryLike {
    /// The layout of Gelbooru's `index.php`.
    Gelbooru,
}

/// What a request asks for.
#[derive(Debug, Clone, Copy, PartialEq, Eq, Structural)]
pub enum QueryMode {
    /// The post with this id.
    Single(u32),
    /// The posts that match the query.
    Multiple,
}

/// A backend whose requests follow a shared layout.
pub trait WithCommonQuery {
    /// The layout that the backend follows.
    spec fn query_type() -> QueryLike;

    fn common_query_type() -> (like: QueryLike)
        ensures
            like == Self::query_type(),
    ;
}

/// The fixed parameters of Gelbooru's layout: they select the post index of
/// the API, and JSON for its answers.
pub open spec fn gelbooru_base_query() -> Seq<(Seq<char>, Seq<char>)> {
    seq![("page"@, "dapi"@), ("s"@, "post"@), ("q"@, "index"@), ("json"@, "1"@)]
}

/// The parameters of a request in a shared layout: the fixed ones, then the
/// id of the post that is looked up, or the limit and the tags of the query.
pub open spec fn common_query<R: RatingKeyword>(
    like: QueryLike,
    query: QueryView<R>,
    sort_keyword: Seq<char>,
    mode: QueryMode,
) -> Seq<(Seq<char>, Seq<char>)> {
    match like {
        QueryLike::Gelbooru => gelbooru_base_query() + match mode {
            QueryMode::Single(id) => seq![("id"@, decimal(id as nat))],
            QueryMode::Multiple => seq![
                ("limit"@, decimal(query.limit as nat)),
                ("tags"@, unpacked(query.tags, sort_keyword)),
            ],
        },
    }
}

/// Writes the parameters of a request in the backend's shared layout.
pub trait ImplementedWithCommonQuery<T: ClientTypes + ClientInformation + WithCommonQuery> {
    fn get_query(query: &ClientQueryBuilder<T>, query_mode: QueryMode) -> (out: QueryVec)
        ensures
            query_pairs(out@) == common_query(T::query_type(), query@, T::sort_text(), query_mode),
    ;
}

impl<T: WithCommonQuery + QueryBuilderRules + ClientInformation> ImplementedWithCommonQuery<
    T,
> for ClientQueryDispatcher<T> {
    fn get_query(query: &ClientQueryBuilder<T>, query_mode: QueryMode) -> (out: QueryVec) {
        let query_type = T::common_query_type();
        let mut out: QueryVec = Vec::new();
        assert(query_pairs(out@) =~= Seq::empty());
        match query_type {
            QueryLike::Gelbooru => {
                push_pair(&mut out, "page", "dapi".to_owned());
                push_pair(&mut out, "s", "post".to_owned());
                push_pair(&mut out, "q", "index".to_owned());
                push_pair(&mut out, "json", "1".to_owned());
            },
        }
        assert(query_pairs(out@) =~= gelbooru_base_query());
        match query_type {
            QueryLike::Gelbooru => match query_mode {
                QueryMode::Single(id) => {
                    push_pair(&mut out, "id", decimal_string(id));
                },
                QueryMode::Multiple => {
                    push_pair(&mut out, "limit", decimal_string(query.limit));
                    push_pair(&mut out, "tags", query.tags.unpack());
                },
            },
        }
        assert(query_pairs(out@) =~= common_query(
            T::query_type(),
            query@,
            T::sort_text(),
            query_mode,
        ));
        out
    }
}

/// The two requests of a dispatcher, and what their answers hold.
pub trait DispatcherTrait<T: ClientTypes> {
    /// What the body of an answer to `get_request` is decoded to.
    type Listing;

    /// What the body of an answer to `get_by_id_request` is decoded to.
    type Lookup;

    /// The request that looks up the post with this id.
    spec fn get_by_id_plan(&self, id: u32) -> HttpRequestView;

    /// Describes the request that looks up the post with this id.
    fn get_by_id_request(&self, id: u32) -> (request: HttpRequest)
        ensures
            request@ == self.get_by_id_plan(id),
    ;

    /// The request that asks for the posts that match the query.
    spec fn get_plan(&self) -> HttpRequestView;

    /// Describes the request that asks for the posts that match the query.
    fn get_request(&self) -> (request: HttpRequest)
        ensures
            request@ == self.get_plan(),
    ;

    /// The posts that an answer lists.
    spec fn listed(listing: Self::Listing) -> Seq<T::Post>;

    /// Takes the posts out of an answer to `get_request`: all that it lists,
    /// in its order.
    fn posts(listing: Self::Listing) -> (posts: Vec<T::Post>)
        ensures
            posts@ == Self::listed(listing),
    ;

    /// The post that a lookup found, if it found one.
    spec fn looked_up(lookup: Self::Lookup) -> Option<T::Post>;

    /// Takes the post out of an answer to `get_by_id_request`. There is none
    /// where the backend knows no post of that id.
    fn post(lookup: Self::Lookup) -> (post: Option<T::Post>)
        ensures
            post == Self::looked_up(lookup),
    ;

    /// What the body of a response with this status is read as.
    spec fn reading_of(status: u16) -> Reading;

    /// Tells from the status of a response what its body is read as: as the
    /// answer where the status reports success, and else as the backend's
    /// account of the refusal, if the backend gives any.
    fn reading(status: u16) -> (reading: Reading)
        ensures
            reading == Self::reading_of(status),
            reading is Answer <==> status_is_success(status),
    ;
}

/// A dispatcher whose backend suggests tags.
pub trait QueryDispatcher<T: ClientTypes>: DispatcherTrait<T> {
    /// The request that asks for tags that complete `input`.
    spec fn get_autocomplete_plan(&self, input: Seq<char>) -> HttpRequestView;

    /// Describes the request that asks for tags that complete `input`.
    fn get_autocomplete_request(&self, input: &str) -> (request: HttpRequest)
        ensures
            request@ == self.get_autocomplete_plan(input@),
    ;
}

} // verus!
