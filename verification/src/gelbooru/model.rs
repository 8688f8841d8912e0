//! Gelbooru's ratings and posts, and how both map to the canonical ones.
use crate::generic::{BooruPost, BooruPostView, Rating};
use crate::shared::client::{RatingKeyword, TagText};
use vstd::prelude::*;

verus! {

/// A post as Gelbooru returns it.
#[derive(Debug, Clone)]
pub struct GelbooruPost {
    /// The id of the post.
    pub id: u32,
    /// When the post was created.
    pub created_at: String,
    /// The score of the post.
    pub score: u32,
    /// The width of the image.
    pub width: u32,
    /// The height of the image.
    pub height: u32,
    /// The md5 of the image.
    pub md5: String,
    /// Where the image is.
    pub file_url: String,
    /// The tags of the post, separated by spaces.
    pub tags: String,
    /// The name of the image file, with its extension.
    pub image: String,
    /// Where the image comes from.
    pub source: String,
    /// The rating of the post.
    pub rating: GelbooruRating,
}

/// The body of Gelbooru's answers: the posts stand in its field `post`.
#[derive(Debug)]
pub struct GelbooruResponse {
    pub posts: Vec<GelbooruPost>,
}

/// Gelbooru's ratings: one for each canonical rating.
#[derive(Debug, Clone, Copy, PartialEq, Eq, Structural)]
pub enum GelbooruRating {
    Explicit,
    Questionable,
    Safe,
    Sensitive,
    General,
}

impl RatingKeyword for GelbooruRating {
    open spec fn keyword(&self) -> Seq<char> {
        match self {
            GelbooruRating::Explicit => "explicit"@,
            GelbooruRating::Questionable => "questionable"@,
            GelbooruRating::Safe => "safe"@,
            GelbooruRating::Sensitive => "sensitive"@,
            GelbooruRating::General => "general"@,
        }
    }

    fn as_str(&self) -> (s: &'static str) {
        match self {
            GelbooruRating::Explicit => "explicit",
            GelbooruRating::Questionable => "questionable",
            GelbooruRating::Safe => "safe",
            GelbooruRating::Sensitive => "sensitive",
            GelbooruRating::General => "general",
        }
    }
}

impl TagText for GelbooruRating {
    open spec fn tag_text(&self) -> Seq<char> {
        self.keyword()
    }

    fn to_tag_text(&self) -> (s: String) {
        self.to_string()
    }
}

impl GelbooruRating {
    pub fn to_string(&self) -> (s: String)
        ensures
            s@ == self.keyword(),
    {
        self.as_str().to_owned()
    }

    /// The rating that a query for Gelbooru carries in place of a canonical
    /// one: the one of the same name.
    pub open spec fn of_canonical(rating: Rating) -> GelbooruRating {
        match rating {
            Rating::Explicit => GelbooruRating::Explicit,
            Rating::Questionable => GelbooruRating::Questionable,
            Rating::Safe => GelbooruRating::Safe,
            Rating::Sensitive => GelbooruRating::Sensitive,
            Rating::General => GelbooruRating::General,
        }
    }

    /// The canonical rating of a post that Gelbooru rated so.
    pub open spec fn canonical(self) -> Rating {
        match self {
            GelbooruRating::Explicit => Rating::Explicit,
            GelbooruRating::Questionable => Rating::Questionable,
            GelbooruRating::Safe => Rating::Safe,
            GelbooruRating::Sensitive => Rating::Sensitive,
            GelbooruRating::General => Rating::General,
        }
    }

    /// Whether a canonical rating survives the way to Gelbooru and back:
    /// each does.
    pub open spec fn represents(rating: Rating) -> bool {
        true
    }

    /// Every canonical rating comes back from Gelbooru as it went, and every
    /// rating of Gelbooru's comes back from the canonical ones as it went.
    pub proof fn lemma_round_trip(rating: Rating, own: GelbooruRating)
        ensures
            Self::represents(rating),
            Self::of_canonical(rating).canonical() == rating,
            Self::of_canonical(own.canonical()) == own,
    {
    }
}

impl vstd::std_specs::convert::FromSpecImpl<Rating> for GelbooruRating {
    open spec fn obeys_from_spec() -> bool {
        true
    }

    open spec fn from_spec(value: Rating) -> Self {
        GelbooruRating::of_canonical(value)
    }
}

impl From<Rating> for GelbooruRating {
    fn from(value: Rating) -> (out: Self) {
        match value {
            Rating::Explicit => GelbooruRating::Explicit,
            Rating::Questionable => GelbooruRating::Questionable,
            Rating::Safe => GelbooruRating::Safe,
            Rating::Sensitive => GelbooruRating::Sensitive,
            Rating::General => GelbooruRating::General,
        }
    }
}

impl vstd::std_specs::convert::FromSpecImpl<GelbooruRating> for Rating {
    open spec fn obeys_from_spec() -> bool {
        true
    }

    open spec fn from_spec(value: GelbooruRating) -> Self {
        value.canonical()
    }
}

impl From<GelbooruRating> for Rating {
    fn from(value: GelbooruRating) -> (out: Self) {
        match value {
            GelbooruRating::Explicit => Rating::Explicit,
            GelbooruRating::Questionable => Rating::Questionable,
            GelbooruRating::Safe => Rating::Safe,
            GelbooruRating::Sensitive => Rating::Sensitive,
            GelbooruRating::General => Rating::General,
        }
    }
}

/// A Gelbooru post in the canonical schema: Gelbooru gives every field of it.
pub open spec fn normalized(post: GelbooruPost) -> BooruPostView {
    BooruPostView {
        id: post.id,
        created_at: Some(post.created_at@),
        score: post.score as i64,
        width: post.width,
        height: post.height,
        md5: Some(post.md5@),
        file_url: Some(post.file_url@),
        tags: post.tags@,
        image: Some(post.image@),
        source: Some(post.source@),
        rating: post.rating.canonical(),
    }
}

impl vstd::std_specs::convert::FromSpecImpl<GelbooruPost> for BooruPost {
    open spec fn obeys_from_spec() -> bool {
        true
    }

    open spec fn from_spec(post: GelbooruPost) -> Self {
        BooruPost {
            id: post.id,
            created_at: Some(post.created_at),
            score: post.score as i64,
            width: post.width,
            height: post.height,
            md5: Some(post.md5),
            file_url: Some(post.file_url),
            tags: post.tags,
            image: Some(post.image),
            source: Some(post.source),
            rating: post.rating.canonical(),
        }
    }
}

impl From<GelbooruPost> for BooruPost {
    fn from(post: GelbooruPost) -> (out: Self)
        ensures
            out@ == normalized(post),
    {
        BooruPost {
            id: post.id,
            created_at: Some(post.created_at),
            score: post.score as i64,
            width: post.width,
            height: post.height,
            md5: Some(post.md5),
            file_url: Some(post.file_url),
            tags: post.tags,
            image: Some(post.image),
            source: Some(post.source),
            rating: Rating::from(post.rating),
        }
    }
}

} // verus!
