//! The facade: one canonical query, sent to whichever backend is chosen when
//! the program runs.
use super::{BooruPost, Rating};
use crate::danbooru::client::DanbooruClient;
use crate::danbooru::DanbooruRating;
use crate::gelbooru::client::GelbooruClient;
use crate::gelbooru::model::GelbooruRating;
use crate::safebooru::client::SafebooruClient;
use crate::safebooru::model::SafebooruRating;
use crate::shared::client::{
    within_plain_limit, ClientBuilder, ClientInformation, ClientQueryBuilder,
    ClientQueryDispatcher, ClientTypes, DispatcherTrait, QueryBuilderRules, QueryDispatcher,
    QueryView, ValidationType,
};
use crate::shared::model::{plain_count, Tag, TagView, Tags, ValidationError};
use crate::shared::request::{HttpRequest, HttpRequestView};
use crate::shared::BooruError;
use vstd::prelude::*;
use vstd::std_specs::convert::FromSpec;

verus! {

/// Stands for no backend in particular: its queries speak the canonical
/// vocabulary and can go to any backend.
#[derive(Debug, Clone, Copy)]
pub struct GenericClient;

impl ClientTypes for GenericClient {
    type Rating = Rating;

    type Post = BooruPost;
}

impl QueryBuilderRules for GenericClient {
    /// A canonical query is held to no rule until a backend is chosen.
    open spec fn plain_tag_limit() -> Option<nat> {
        None
    }

    fn validate(validates: ValidationType<'_, Self>) -> (checked: Result<(), ValidationError>) {
        Ok(())
    }
}

impl GenericClient {
    /// Starts a canonical query.
    pub fn query() -> (out: ClientQueryBuilder<GenericClient>)
        ensures
            out@ == QueryView::<Rating>::initial(),
    {
        ClientQueryBuilder::new()
    }
}

/// The backends that a canonical query can go to.
#[derive(Debug, Clone, Copy, PartialEq, Eq, Structural)]
pub enum BooruOption {
    Gelbooru,
    Safebooru,
    Danbooru,
}

impl BooruOption {
    /// Every backend, once.
    pub fn iter() -> (all: Vec<BooruOption>)
        ensures
            all@ == seq![BooruOption::Gelbooru, BooruOption::Safebooru, BooruOption::Danbooru],
    {
        let mut all = Vec::new();
        all.push(BooruOption::Gelbooru);
        all.push(BooruOption::Safebooru);
        all.push(BooruOption::Danbooru);
        assert(all@ =~= seq![BooruOption::Gelbooru, BooruOption::Safebooru, BooruOption::Danbooru]);
        all
    }

    /// The most plain tags that the backend takes in one query, if it sets a
    /// limit.
    pub open spec fn plain_tag_limit(self) -> Option<nat> {
        match self {
            BooruOption::Gelbooru => GelbooruClient::plain_tag_limit(),
            BooruOption::Safebooru => SafebooruClient::plain_tag_limit(),
            BooruOption::Danbooru => DanbooruClient::plain_tag_limit(),
        }
    }
}

/// Why a call through the facade failed.
#[derive(Debug)]
pub enum GenericClientError {
    /// The chosen backend does not accept the query. Nothing was sent.
    Validation(ValidationError),
    /// The dispatch to the backend failed.
    Dispatch(BooruError),
}

impl vstd::std_specs::convert::FromSpecImpl<ValidationError> for GenericClientError {
    open spec fn obeys_from_spec() -> bool {
        true
    }

    open spec fn from_spec(value: ValidationError) -> Self {
        GenericClientError::Validation(value)
    }
}

impl From<ValidationError> for GenericClientError {
    fn from(value: ValidationError) -> (out: Self) {
        GenericClientError::Validation(value)
    }
}

impl vstd::std_specs::convert::FromSpecImpl<BooruError> for GenericClientError {
    open spec fn obeys_from_spec() -> bool {
        true
    }

    open spec fn from_spec(value: BooruError) -> Self {
        GenericClientError::Dispatch(value)
    }
}

impl From<BooruError> for GenericClientError {
    fn from(value: BooruError) -> (out: Self) {
        GenericClientError::Dispatch(value)
    }
}

/// A canonical tag in the vocabulary `R`: a rating becomes the rating that
/// `R` makes of it, every other tag stays what it is.
pub open spec fn converted_tag<R: From<Rating>>(tag: TagView<Rating>) -> TagView<R> {
    match tag {
        TagView::Plain(text) => TagView::Plain(text),
        TagView::Blacklist(text) => TagView::Blacklist(text),
        TagView::Rating(rating) => TagView::Rating(R::from_spec(rating)),
        TagView::Sort(sort) => TagView::Sort(sort),
    }
}

/// A canonical query in the vocabulary `R`: each tag converted, in the same
/// order, and the same limit.
pub open spec fn converted_query<R: From<Rating>>(query: QueryView<Rating>) -> QueryView<R> {
    QueryView {
        tags: query.tags.map_values(|tag: TagView<Rating>| converted_tag::<R>(tag)),
        limit: query.limit,
    }
}

/// Whether `after` is what the canonical tag `before` can become in another
/// vocabulary: a plain, a blacklisted or a sort tag stays what it is, and a
/// rating stays a rating.
pub open spec fn keeps_tag<R>(before: TagView<Rating>, after: TagView<R>) -> bool {
    match before {
        TagView::Plain(text) => after == TagView::<R>::Plain(text),
        TagView::Blacklist(text) => after == TagView::<R>::Blacklist(text),
        TagView::Rating(_) => after is Rating,
        TagView::Sort(sort) => after == TagView::<R>::Sort(sort),
    }
}

/// Whether `after` holds, in the same order, what each of the canonical tags
/// `before` can become in another vocabulary.
pub open spec fn keeps_tags<R>(before: Seq<TagView<Rating>>, after: Seq<TagView<R>>) -> bool {
    &&& after.len() == before.len()
    &&& forall|i: int| 0 <= i < before.len() ==> keeps_tag(before[i], #[trigger] after[i])
}

/// Tags that were kept hold as many plain tags as the canonical ones.
pub proof fn lemma_kept_tags_keep_plain_count<R>(
    before: Seq<TagView<Rating>>,
    after: Seq<TagView<R>>,
)
    requires
        keeps_tags(before, after),
    ensures
        plain_count(after) == plain_count(before),
    decreases before.len(),
{
    let is_plain = |tag: TagView<Rating>| tag is Plain;
    let is_plain_after = |tag: TagView<R>| tag is Plain;
    if before.len() == 0 {
        before.lemma_filter_len(is_plain);
        after.lemma_filter_len(is_plain_after);
    } else {
        let front = before.drop_last();
        let front_after = after.drop_last();
        assert(keeps_tag(before.last(), after.last()));
        assert forall|i: int| 0 <= i < front.len() implies keeps_tag(
            front[i],
            #[trigger] front_after[i],
        ) by {
            assert(keeps_tag(before[i], after[i]));
        }
        lemma_kept_tags_keep_plain_count(front, front_after);
        assert(front.push(before.last()) =~= before);
        assert(front_after.push(after.last()) =~= after);
        front.lemma_filter_len_push(is_plain, before.last());
        front_after.lemma_filter_len_push(is_plain_after, after.last());
    }
}

/// The conversion into the vocabulary `R` keeps every tag, and so the number
/// of plain tags.
pub proof fn lemma_conversion_keeps_plain_count<R: From<Rating>>(tags: Seq<TagView<Rating>>)
    ensures
        keeps_tags(tags, tags.map_values(|tag: TagView<Rating>| converted_tag::<R>(tag))),
        plain_count(tags.map_values(|tag: TagView<Rating>| converted_tag::<R>(tag)))
            == plain_count(tags),
{
    let after = tags.map_values(|tag: TagView<Rating>| converted_tag::<R>(tag));
    assert(keeps_tags(tags, after));
    lemma_kept_tags_keep_plain_count(tags, after);
}

impl<T: ClientTypes> vstd::std_specs::convert::FromSpecImpl<&Tag<GenericClient>> for Tag<T> {
    open spec fn obeys_from_spec() -> bool {
        <T::Rating as FromSpec<Rating>>::obeys_from_spec()
    }

    open spec fn from_spec(val: &Tag<GenericClient>) -> Self {
        match val {
            Tag::Plain(text) => Tag::Plain(*text),
            Tag::Blacklist(text) => Tag::Blacklist(*text),
            Tag::Rating(rating) => Tag::Rating(<T::Rating as FromSpec<Rating>>::from_spec(*rating)),
            Tag::Sort(sort) => Tag::Sort(*sort),
        }
    }
}

impl<T: ClientTypes> From<&Tag<GenericClient>> for Tag<T> {
    fn from(val: &Tag<GenericClient>) -> (out: Self)
        ensures
            keeps_tag(val@, out@),
            <T::Rating as FromSpec<Rating>>::obeys_from_spec() ==> out@ == converted_tag::<
                T::Rating,
            >(val@),
    {
        match val {
            Tag::Plain(text) => Tag::Plain(text.clone()),
            Tag::Blacklist(text) => Tag::Blacklist(text.clone()),
            Tag::Rating(rating) => Tag::Rating(<T::Rating as From<Rating>>::from(*rating)),
            Tag::Sort(sort) => Tag::Sort(*sort),
        }
    }
}

/// The request that asks the chosen backend, at its own URL, for the posts
/// that match a canonical query.
pub open spec fn get_plan(query: QueryView<Rating>, booru: BooruOption) -> HttpRequestView {
    match booru {
        BooruOption::Gelbooru => crate::gelbooru::client::get_plan(
            GelbooruClient::url_text(),
            converted_query::<GelbooruRating>(query),
        ),
        BooruOption::Safebooru => crate::safebooru::client::get_plan(
            SafebooruClient::url_text(),
            converted_query::<SafebooruRating>(query),
        ),
        BooruOption::Danbooru => crate::danbooru::client::get_plan(
            DanbooruClient::url_text(),
            converted_query::<DanbooruRating>(query),
        ),
    }
}

/// The request that looks up the post with this id at the chosen backend, at
/// its own URL.
pub open spec fn get_by_id_plan(
    query: QueryView<Rating>,
    id: u32,
    booru: BooruOption,
) -> HttpRequestView {
    match booru {
        BooruOption::Gelbooru => crate::gelbooru::client::get_by_id_plan(
            GelbooruClient::url_text(),
            converted_query::<GelbooruRating>(query),
            id,
        ),
        BooruOption::Safebooru => crate::safebooru::client::get_by_id_plan(
            SafebooruClient::url_text(),
            converted_query::<SafebooruRating>(query),
            id,
        ),
        BooruOption::Danbooru => crate::danbooru::client::get_by_id_plan(
            DanbooruClient::url_text(),
            converted_query::<DanbooruRating>(query),
            id,
        ),
    }
}

/// The request that asks the chosen backend, at its own URL, for tags that
/// complete `input`.
pub open spec fn get_autocomplete_plan(
    query: QueryView<Rating>,
    booru: BooruOption,
    input: Seq<char>,
) -> HttpRequestView {
    match booru {
        BooruOption::Gelbooru => crate::gelbooru::client::get_autocomplete_plan(
            GelbooruClient::url_text(),
            converted_query::<GelbooruRating>(query),
            input,
        ),
        BooruOption::Safebooru => crate::safebooru::client::get_autocomplete_plan(
            SafebooruClient::url_text(),
            converted_query::<SafebooruRating>(query),
            input,
        ),
        BooruOption::Danbooru => crate::danbooru::client::get_autocomplete_plan(
            DanbooruClient::url_text(),
            converted_query::<DanbooruRating>(query),
            input,
        ),
    }
}

impl ClientQueryBuilder<GenericClient> {
    /// Writes the query in the vocabulary of the backend `T`: the same
    /// limit, and the same tags in the same order, but that each rating is
    /// the one that `T` makes of it.
    pub fn convert<T: ClientTypes>(&self) -> (out: ClientQueryBuilder<T>)
        ensures
            keeps_tags(self@.tags, out@.tags),
            out@.limit == self@.limit,
            <T::Rating as FromSpec<Rating>>::obeys_from_spec() ==> out@ == converted_query::<
                T::Rating,
            >(self@),
    {
        let mut tags: Vec<Tag<T>> = Vec::new();
        let mut i: usize = 0;
        while i < self.tags.0.len()
            invariant
                i <= self.tags.0.len(),
                tags@.len() == i,
                forall|j: int| 0 <= j < i ==> keeps_tag(self.tags.0@[j]@, (#[trigger] tags@[j])@),
                <T::Rating as FromSpec<Rating>>::obeys_from_spec() ==> forall|j: int|
                    0 <= j < i ==> (#[trigger] tags@[j])@ == converted_tag::<T::Rating>(
                        self.tags.0@[j]@,
                    ),
            decreases self.tags.0.len() - i,
        {
            tags.push(Tag::from(&self.tags.0[i]));
            i += 1;
        }
        let out = ClientQueryBuilder { tags: Tags(tags), limit: self.limit };
        assert(keeps_tags(self@.tags, out@.tags)) by {
            assert forall|j: int| 0 <= j < self@.tags.len() implies keeps_tag(
                self@.tags[j],
                #[trigger] out@.tags[j],
            ) by {
                assert(keeps_tag(self.tags.0@[j]@, tags@[j]@));
            }
        }
        assert(<T::Rating as FromSpec<Rating>>::obeys_from_spec() ==> out@.tags
            =~= converted_query::<T::Rating>(self@).tags);
        out
    }

    /// Writes the query in the vocabulary of the backend `T` and binds it
    /// to `T` at its own URL, if `T` accepts it.
    pub fn bind<T: QueryBuilderRules + ClientInformation>(&self) -> (bound: Result<
        ClientQueryDispatcher<T>,
        ValidationError,
    >)
        ensures
            bound is Ok <==> within_plain_limit(T::plain_tag_limit(), self@.tags),
            bound matches Ok(dispatcher) ==> {
                &&& keeps_tags(self@.tags, dispatcher.query@.tags)
                &&& dispatcher.query@.limit == self@.limit
                &&& dispatcher.builder.url@ == T::url_text()
                &&& dispatcher.builder.key is None
                &&& dispatcher.builder.user is None
            },
            <T::Rating as FromSpec<Rating>>::obeys_from_spec() ==> (bound matches Ok(
                dispatcher,
            ) ==> dispatcher.query@ == converted_query::<T::Rating>(self@)),
            bound matches Err(error) ==> error == ValidationError::TooManyTags,
    {
        let mut query = self.convert::<T>();
        proof {
            lemma_kept_tags_keep_plain_count(self@.tags, query@.tags);
        }
        ClientBuilder::<T>::new().query_raw(&mut query)
    }

    /// Describes the request that asks the chosen backend for the posts that
    /// match the query. There is none where the backend does not accept the
    /// query.
    pub fn get_request(&self, booru: BooruOption) -> (planned: Result<
        HttpRequest,
        ValidationError,
    >)
        ensures
            planned is Ok <==> within_plain_limit(booru.plain_tag_limit(), self@.tags),
            planned matches Ok(request) ==> request@ == get_plan(self@, booru),
            planned matches Err(error) ==> error == ValidationError::TooManyTags,
    {
        match booru {
            BooruOption::Gelbooru => match self.bind::<GelbooruClient>() {
                Ok(dispatcher) => Ok(dispatcher.get_request()),
                Err(error) => Err(error),
            },
            BooruOption::Safebooru => match self.bind::<SafebooruClient>() {
                Ok(dispatcher) => Ok(dispatcher.get_request()),
                Err(error) => Err(error),
            },
            BooruOption::Danbooru => match self.bind::<DanbooruClient>() {
                Ok(dispatcher) => Ok(dispatcher.get_request()),
                Err(error) => Err(error),
            },
        }
    }

    /// Describes the request that looks up the post with this id at the
    /// chosen backend. There is none where the backend does not accept the
    /// query.
    pub fn get_by_id_request(&self, id: u32, booru: BooruOption) -> (planned: Result<
        HttpRequest,
        ValidationError,
    >)
        ensures
            planned is Ok <==> within_plain_limit(booru.plain_tag_limit(), self@.tags),
            planned matches Ok(request) ==> request@ == get_by_id_plan(self@, id, booru),
            planned matches Err(error) ==> error == ValidationError::TooManyTags,
    {
        match booru {
            BooruOption::Gelbooru => match self.bind::<GelbooruClient>() {
                Ok(dispatcher) => Ok(dispatcher.get_by_id_request(id)),
                Err(error) => Err(error),
            },
            BooruOption::Safebooru => match self.bind::<SafebooruClient>() {
                Ok(dispatcher) => Ok(dispatcher.get_by_id_request(id)),
                Err(error) => Err(error),
            },
            BooruOption::Danbooru => match self.bind::<DanbooruClient>() {
                Ok(dispatcher) => Ok(dispatcher.get_by_id_request(id)),
                Err(error) => Err(error),
            },
        }
    }

    /// Describes the request that asks the chosen backend for tags that
    /// complete `input`. There is none where the backend does not accept the
    /// query.
    pub fn get_autocomplete_request(&self, booru: BooruOption, input: &str) -> (planned: Result<
        HttpRequest,
        ValidationError,
    >)
        ensures
            planned is Ok <==> within_plain_limit(booru.plain_tag_limit(), self@.tags),
            planned matches Ok(request) ==> request@ == get_autocomplete_plan(
                self@,
                booru,
                input@,
            ),
            planned matches Err(error) ==> error == ValidationError::TooManyTags,
    {
        match booru {
            BooruOption::Gelbooru => match self.bind::<GelbooruClient>() {
                Ok(dispatcher) => Ok(dispatcher.get_autocomplete_request(input)),
                Err(error) => Err(error),
            },
            BooruOption::Safebooru => match self.bind::<SafebooruClient>() {
                Ok(dispatcher) => Ok(dispatcher.get_autocomplete_request(input)),
                Err(error) => Err(error),
            },
            BooruOption::Danbooru => match self.bind::<DanbooruClient>() {
                Ok(dispatcher) => Ok(dispatcher.get_autocomplete_request(input)),
                Err(error) => Err(error),
            },
        }
    }
}

/// Brings the posts of a backend into the canonical schema, each by the
/// backend's own conversion, in the same order.
pub fn normalize_all<P>(posts: Vec<P>) -> (out: Vec<BooruPost>) where BooruPost: From<P>
    ensures
        out@.len() == posts@.len(),
        forall|i: int|
            0 <= i < posts@.len() ==> call_ensures(
                <BooruPost as From<P>>::from,
                (posts@[i],),
                #[trigger] out@[i],
            ),
{
    let mut rest = posts;
    let mut reversed: Vec<BooruPost> = Vec::new();
    while rest.len() > 0
        invariant
            rest@.len() + reversed@.len() == posts@.len(),
            rest@ == posts@.take(rest@.len() as int),
            forall|j: int|
                0 <= j < reversed@.len() ==> call_ensures(
                    <BooruPost as From<P>>::from,
                    (posts@[posts@.len() - 1 - j],),
                    #[trigger] reversed@[j],
                ),
        decreases rest@.len(),
    {
        let post = rest.pop().unwrap();
        reversed.push(BooruPost::from(post));
    }
    let mut out: Vec<BooruPost> = Vec::new();
    while reversed.len() > 0
        invariant
            out@.len() + reversed@.len() == posts@.len(),
            forall|j: int|
                0 <= j < reversed@.len() ==> call_ensures(
                    <BooruPost as From<P>>::from,
                    (posts@[posts@.len() - 1 - j],),
                    #[trigger] reversed@[j],
                ),
            forall|i: int|
                0 <= i < out@.len() ==> call_ensures(
                    <BooruPost as From<P>>::from,
                    (posts@[i],),
                    #[trigger] out@[i],
                ),
        decreases reversed@.len(),
    {
        let post = reversed.pop().unwrap();
        out.push(post);
    }
    out
}

} // verus!
