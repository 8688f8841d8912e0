//! The tag model: what a query is made of, and how it is written on the wire.
use super::client::{ClientInformation, ClientTypes, RatingKeyword};
use super::text::{
    glue, join_with_spaces, lemma_space_joined_keeps_parts, lemma_space_joined_push, space_joined,
};
use vstd::prelude::*;

verus! {

/// Why a backend refuses a query before anything is sent.
#[derive(Debug, Clone, Copy, PartialEq, Eq, Structural)]
pub enum ValidationError {
    /// The query holds more plain tags than the backend allows.
    TooManyTags,
}

impl ValidationError {
    /// The message of this error.
    pub open spec fn message(self) -> Seq<char> {
        "Requested booru client with way too many tags."@
    }

    pub fn to_string(&self) -> (s: String)
        ensures
            s@ == self.message(),
    {
        "Requested booru client with way too many tags.".to_owned()
    }
}

/// What a backend can order its results by.
#[derive(Debug, Clone, Copy, PartialEq, Eq, Structural)]
pub enum Sort {
    Id,
    Score,
    Rating,
    User,
    Height,
    Width,
    Source,
    Updated,
    Random,
}

impl Sort {
    /// The lowercase word that stands for this order in a tag.
    pub open spec fn keyword(self) -> Seq<char> {
        match self {
            Sort::Id => "id"@,
            Sort::Score => "score"@,
            Sort::Rating => "rating"@,
            Sort::User => "user"@,
            Sort::Height => "height"@,
            Sort::Width => "width"@,
            Sort::Source => "source"@,
            Sort::Updated => "updated"@,
            Sort::Random => "random"@,
        }
    }

    pub fn as_str(&self) -> (s: &'static str)
        ensures
            s@ == self.keyword(),
    {
        match self {
            Sort::Id => "id",
            Sort::Score => "score",
            Sort::Rating => "rating",
            Sort::User => "user",
            Sort::Height => "height",
            Sort::Width => "width",
            Sort::Source => "source",
            Sort::Updated => "updated",
            Sort::Random => "random",
        }
    }

    pub fn to_string(&self) -> (s: String)
        ensures
            s@ == self.keyword(),
    {
        self.as_str().to_owned()
    }
}

/// One term of a query, for the backend `T`.
#[derive(Debug)]
pub enum Tag<T: ClientTypes> {
    /// Posts must carry this tag.
    Plain(String),
    /// Posts must not carry this tag.
    Blacklist(String),
    /// Posts must have this rating.
    Rating(T::Rating),
    /// Results come in this order.
    Sort(Sort),
}

/// What a tag holds, over the rating vocabulary `R`.
pub enum TagView<R> {
    Plain(Seq<char>),
    Blacklist(Seq<char>),
    Rating(R),
    Sort(Sort),
}

impl<R: RatingKeyword> TagView<R> {
    /// How the tag is written in a request: a plain tag as it is, a
    /// blacklisted one behind `-`, a rating behind `rating:`, an order behind
    /// the backend's sort keyword.
    pub open spec fn text(self, sort_keyword: Seq<char>) -> Seq<char> {
        match self {
            TagView::Plain(text) => text,
            TagView::Blacklist(text) => seq!['-'] + text,
            TagView::Rating(rating) => "rating:"@ + rating.keyword(),
            TagView::Sort(sort) => sort_keyword + sort.keyword(),
        }
    }
}

impl<T: ClientTypes> View for Tag<T> {
    type V = TagView<T::Rating>;

    open spec fn view(&self) -> TagView<T::Rating> {
        match self {
            Tag::Plain(text) => TagView::Plain(text@),
            Tag::Blacklist(text) => TagView::Blacklist(text@),
            Tag::Rating(rating) => TagView::Rating(*rating),
            Tag::Sort(sort) => TagView::Sort(*sort),
        }
    }
}

impl<T: ClientTypes> Clone for Tag<T> {
    fn clone(&self) -> (out: Self)
        ensures
            out == *self,
    {
        match self {
            Tag::Plain(text) => Tag::Plain(text.clone()),
            Tag::Blacklist(text) => Tag::Blacklist(text.clone()),
            Tag::Rating(rating) => Tag::Rating(*rating),
            Tag::Sort(sort) => Tag::Sort(*sort),
        }
    }
}

impl<T: ClientTypes> Tag<T> {
    pub fn is_plain(&self) -> (b: bool)
        ensures
            b == (self@ is Plain),
    {
        match self {
            Tag::Plain(_) => true,
            _ => false,
        }
    }

    pub fn is_blacklist(&self) -> (b: bool)
        ensures
            b == (self@ is Blacklist),
    {
        match self {
            Tag::Blacklist(_) => true,
            _ => false,
        }
    }

    pub fn is_rating(&self) -> (b: bool)
        ensures
            b == (self@ is Rating),
    {
        match self {
            Tag::Rating(_) => true,
            _ => false,
        }
    }

    pub fn is_sort(&self) -> (b: bool)
        ensures
            b == (self@ is Sort),
    {
        match self {
            Tag::Sort(_) => true,
            _ => false,
        }
    }
}

impl<T: ClientTypes + ClientInformation> Tag<T> {
    /// Writes the tag as a request to `T` carries it.
    pub fn to_string(&self) -> (s: String)
        ensures
            s@ == self@.text(T::sort_text()),
    {
        match self {
            Tag::Plain(text) => text.clone(),
            Tag::Blacklist(text) => {
                proof {
                    reveal_strlit("-");
                    assert("-"@ =~= seq!['-']);
                }
                glue("-", text.as_str())
            },
            Tag::Rating(rating) => glue("rating:", rating.as_str()),
            Tag::Sort(sort) => glue(T::sort(), sort.as_str()),
        }
    }
}

/// The tags of a query, in the order in which they were added.
#[derive(Debug)]
pub struct Tags<T: ClientTypes>(pub Vec<Tag<T>>);

impl<T: ClientTypes> View for Tags<T> {
    type V = Seq<TagView<T::Rating>>;

    open spec fn view(&self) -> Seq<TagView<T::Rating>> {
        self.0@.map_values(|tag: Tag<T>| tag@)
    }
}

impl<T: ClientTypes> Clone for Tags<T> {
    fn clone(&self) -> (out: Self)
        ensures
            out.0@ == self.0@,
    {
        let tags = self.0.clone();
        assert(tags@ =~= self.0@);
        Tags(tags)
    }
}

/// The wire text of each tag, in order.
pub open spec fn tag_texts<R: RatingKeyword>(
    tags: Seq<TagView<R>>,
    sort_keyword: Seq<char>,
) -> Seq<Seq<char>> {
    tags.map_values(|tag: TagView<R>| tag.text(sort_keyword))
}

/// The value of a request's `tags` parameter: the wire text of each tag, in
/// the order of the tags, with one space between neighbours.
pub open spec fn unpacked<R: RatingKeyword>(tags: Seq<TagView<R>>, sort_keyword: Seq<char>) -> Seq<
    char,
> {
    space_joined(tag_texts(tags, sort_keyword))
}

/// A tag that is added to a query is written last, after a space unless it
/// is the first: what was written before stays as it was.
pub proof fn lemma_unpacked_push<R: RatingKeyword>(
    tags: Seq<TagView<R>>,
    tag: TagView<R>,
    sort_keyword: Seq<char>,
)
    ensures
        unpacked(tags.push(tag), sort_keyword) == if tags.len() == 0 {
            tag.text(sort_keyword)
        } else {
            unpacked(tags, sort_keyword) + seq![' '] + tag.text(sort_keyword)
        },
{
    assert(tag_texts(tags.push(tag), sort_keyword) =~= tag_texts(tags, sort_keyword).push(
        tag.text(sort_keyword),
    ));
    lemma_space_joined_push(tag_texts(tags, sort_keyword), tag.text(sort_keyword));
}

/// The tags are written in their order: the text of tag `i` ends where the
/// text of the first `i + 1` tags ends, and one space parts it from the text
/// of the tags before it.
pub proof fn lemma_unpacked_keeps_order<R: RatingKeyword>(
    tags: Seq<TagView<R>>,
    sort_keyword: Seq<char>,
    i: int,
)
    requires
        0 <= i < tags.len(),
    ensures
        tags[i].text(sort_keyword).len() <= unpacked(tags.take(i + 1), sort_keyword).len()
            <= unpacked(tags, sort_keyword).len(),
        unpacked(tags, sort_keyword).subrange(
            unpacked(tags.take(i + 1), sort_keyword).len() - tags[i].text(sort_keyword).len(),
            unpacked(tags.take(i + 1), sort_keyword).len() as int,
        ) == tags[i].text(sort_keyword),
        i > 0 ==> unpacked(tags.take(i + 1), sort_keyword) == unpacked(
            tags.take(i),
            sort_keyword,
        ) + seq![' '] + tags[i].text(sort_keyword),
        i > 0 ==> unpacked(tags, sort_keyword)[unpacked(tags.take(i), sort_keyword).len() as int]
            == ' ',
{
    let texts = tag_texts(tags, sort_keyword);
    assert(tag_texts(tags.take(i + 1), sort_keyword) =~= texts.take(i + 1));
    assert(tag_texts(tags.take(i), sort_keyword) =~= texts.take(i));
    lemma_space_joined_keeps_parts(texts, i);
    if i > 0 {
        assert(tags.take(i).push(tags[i]) =~= tags.take(i + 1));
        lemma_unpacked_push(tags.take(i), tags[i], sort_keyword);
    }
}

/// How many of the tags are plain ones.
pub open spec fn plain_count<R>(tags: Seq<TagView<R>>) -> nat {
    tags.filter(|tag: TagView<R>| tag is Plain).len()
}

/// One more tag is one more plain tag if it is a plain one, and none if not.
pub proof fn lemma_plain_count_push<R>(tags: Seq<TagView<R>>, tag: TagView<R>)
    ensures
        plain_count(tags.push(tag)) == plain_count(tags) + if tag is Plain {
            1nat
        } else {
            0nat
        },
        plain_count(Seq::<TagView<R>>::empty()) == 0,
        plain_count(tags) <= tags.len(),
{
    let is_plain = |tag: TagView<R>| tag is Plain;
    tags.lemma_filter_len_push(is_plain, tag);
    Seq::<TagView<R>>::empty().lemma_filter_len(is_plain);
    tags.lemma_filter_len(is_plain);
}

impl<T: ClientTypes + ClientInformation> Tags<T> {
    /// Writes the tags as one request parameter.
    pub fn unpack(&self) -> (s: String)
        ensures
            s@ == unpacked(self@, T::sort_text()),
    {
        let mut texts: Vec<String> = Vec::new();
        let mut i: usize = 0;
        while i < self.0.len()
            invariant
                i <= self.0.len(),
                texts@.len() == i,
                forall|j: int|
                    0 <= j < i ==> (#[trigger] texts@[j])@ == self.0@[j]@.text(T::sort_text()),
            decreases self.0.len() - i,
        {
            let text = self.0[i].to_string();
            texts.push(text);
            i += 1;
        }
        assert(texts@.map_values(|p: String| p@) =~= tag_texts(self@, T::sort_text()));
        join_with_spaces(&texts)
    }
}

impl<T: ClientTypes> Tags<T> {
    /// Counts the plain tags.
    pub fn count_plain(&self) -> (n: usize)
        ensures
            n == plain_count(self@),
    {
        let mut n: usize = 0;
        let mut i: usize = 0;
        while i < self.0.len()
            invariant
                i <= self.0.len(),
                n <= i,
                n == plain_count(self@.take(i as int)),
            decreases self.0.len() - i,
        {
            proof {
                let seen = self@.take(i as int);
                assert(seen.push(self@[i as int]) =~= self@.take(i + 1));
                seen.lemma_filter_len_push(|tag: TagView<T::Rating>| tag is Plain, self@[i as int]);
            }
            if self.0[i].is_plain() {
                n += 1;
            }
            i += 1;
        }
        assert(self@.take(self.0.len() as int) =~= self@);
        n
    }
}

} // verus!
