//! Safebooru's ratings and posts, and how both map to the canonical ones.
use super::client::SafebooruClient;
use crate::generic::{BooruPost, BooruPostView, Rating};
use crate::shared::client::{ClientInformation, RatingKeyword, TagText};
use crate::shared::text::glue;
use vstd::prelude::*;

verus! {

/// A post as Safebooru returns it.
#[derive(Debug, Clone)]
pub struct SafebooruPost {
    pub id: u32,
    /// Missing for posts that are very recent.
    pub score: Option<u32>,
    pub height: u32,
    pub width: u32,
    pub hash: String,
    /// The tags of the post, separated by spaces.
    pub tags: String,
    /// The name of the image file, with its extension.
    pub image: String,
    /// When the post was last changed, in seconds since the epoch. Safebooru
    /// does not say when a post was created.
    pub change: u32,
    pub rating: SafebooruRating,
}

/// Safebooru's ratings. Explicit and questionable posts exist there, though
/// only among the deleted ones.
#[derive(Debug, Clone, Copy, PartialEq, Eq, Structural)]
pub enum SafebooruRating {
    Safe,
    General,
    Questionable,
    Explicit,
}

impl RatingKeyword for SafebooruRating {
    open spec fn keyword(&self) -> Seq<char> {
        match self {
            SafebooruRating::Safe => "safe"@,
            SafebooruRating::General => "general"@,
            SafebooruRating::Questionable => "questionable"@,
            SafebooruRating::Explicit => "explicit"@,
        }
    }

    fn as_str(&self) -> (s: &'static str) {
        match self {
            SafebooruRating::Safe => "safe",
            SafebooruRating::General => "general",
            SafebooruRating::Questionable => "questionable",
            SafebooruRating::Explicit => "explicit",
        }
    }
}

impl TagText for SafebooruRating {
    open spec fn tag_text(&self) -> Seq<char> {
        self.keyword()
    }

    fn to_tag_text(&self) -> (s: String) {
        self.to_string()
    }
}

impl SafebooruRating {
    pub fn to_string(&self) -> (s: String)
        ensures
            s@ == self.keyword(),
    {
        self.as_str().to_owned()
    }

    /// The rating that a query for Safebooru carries in place of a canonical
    /// one. Safebooru has no sensitive rating: questionable stands for it.
    pub open spec fn of_canonical(rating: Rating) -> SafebooruRating {
        match rating {
            Rating::Explicit => SafebooruRating::Explicit,
            Rating::Questionable => SafebooruRating::Questionable,
            Rating::Safe => SafebooruRating::Safe,
            Rating::Sensitive => SafebooruRating::Questionable,
            Rating::General => SafebooruRating::General,
        }
    }

    /// The canonical rating of a post that Safebooru rated so.
    pub open spec fn canonical(self) -> Rating {
        match self {
            SafebooruRating::Safe => Rating::Safe,
            SafebooruRating::General => Rating::General,
            SafebooruRating::Questionable => Rating::Questionable,
            SafebooruRating::Explicit => Rating::Explicit,
        }
    }

    /// Whether a canonical rating survives the way to Safebooru and back.
    pub open spec fn represents(rating: Rating) -> bool {
        !(rating is Sensitive)
    }

    /// A canonical rating comes back from Safebooru as it went exactly when
    /// Safebooru represents it; sensitive comes back as questionable. Every
    /// rating of Safebooru's comes back from the canonical ones as it went.
    pub proof fn lemma_round_trip(rating: Rating, own: SafebooruRating)
        ensures
            Self::represents(rating) <==> Self::of_canonical(rating).canonical() == rating,
            Self::of_canonical(rating).canonical() == if Self::represents(rating) {
                rating
            } else {
                Rating::Questionable
            },
            Self::of_canonical(own.canonical()) == own,
    {
    }
}

impl vstd::std_specs::convert::FromSpecImpl<Rating> for SafebooruRating {
    open spec fn obeys_from_spec() -> bool {
        true
    }

    open spec fn from_spec(value: Rating) -> Self {
        SafebooruRating::of_canonical(value)
    }
}

impl From<Rating> for SafebooruRating {
    fn from(value: Rating) -> (out: Self) {
        match value {
            Rating::Explicit => SafebooruRating::Explicit,
            Rating::Questionable => SafebooruRating::Questionable,
            Rating::Safe => SafebooruRating::Safe,
            Rating::Sensitive => SafebooruRating::Questionable,
            Rating::General => SafebooruRating::General,
        }
    }
}

impl vstd::std_specs::convert::FromSpecImpl<SafebooruRating> for Rating {
    open spec fn obeys_from_spec() -> bool {
        true
    }

    open spec fn from_spec(value: SafebooruRating) -> Self {
        value.canonical()
    }
}

impl From<SafebooruRating> for Rating {
    fn from(value: SafebooruRating) -> (out: Self) {
        match value {
            SafebooruRating::Safe => Rating::Safe,
            SafebooruRating::General => Rating::General,
            SafebooruRating::Questionable => Rating::Questionable,
            SafebooruRating::Explicit => Rating::Explicit,
        }
    }
}

/// Where Safebooru keeps the file of an image, below its base URL. The
/// answers do not say it.
pub const IMAGE_DIRECTORY: &'static str = "/images/4491/";

/// Where the file of an image is.
pub open spec fn image_url(image: Seq<char>) -> Seq<char> {
    SafebooruClient::url_text() + IMAGE_DIRECTORY@ + image
}

/// The score of a post, which is zero where Safebooru gives none.
pub open spec fn score_or_zero(score: Option<u32>) -> u32 {
    match score {
        Some(score) => score,
        None => 0,
    }
}

/// A Safebooru post in the canonical schema. Safebooru gives no creation
/// time, no md5 and no source, so there is none; the URL of the file is made
/// of the name of the image.
pub open spec fn normalized(post: SafebooruPost) -> BooruPostView {
    BooruPostView {
        id: post.id,
        created_at: None,
        score: score_or_zero(post.score) as i64,
        width: post.width,
        height: post.height,
        md5: None,
        file_url: Some(image_url(post.image@)),
        tags: post.tags@,
        image: Some(post.image@),
        source: None,
        rating: post.rating.canonical(),
    }
}

impl vstd::std_specs::convert::FromSpecImpl<SafebooruPost> for BooruPost {
    /// The URL of the file is written anew by each conversion, so what comes
    /// out is stated by what it holds: see the contract of `from`.
    open spec fn obeys_from_spec() -> bool {
        false
    }

    open spec fn from_spec(post: SafebooruPost) -> Self {
        choose|out: BooruPost| out@ == normalized(post)
    }
}

impl From<SafebooruPost> for BooruPost {
    fn from(post: SafebooruPost) -> (out: Self)
        ensures
            out@ == normalized(post),
    {
        let score = match post.score {
            Some(score) => score,
            None => 0,
        };
        let mut file_url = glue(SafebooruClient::url(), IMAGE_DIRECTORY);
        file_url.append(post.image.as_str());
        BooruPost {
            id: post.id,
            created_at: None,
            score: score as i64,
            width: post.width,
            height: post.height,
            md5: None,
            file_url: Some(file_url),
            tags: post.tags,
            image: Some(post.image),
            source: None,
            rating: Rating::from(post.rating),
        }
    }
}

} // verus!
