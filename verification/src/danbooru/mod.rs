//! Danbooru: its ratings, its posts, and how both map to the canonical ones.
pub mod client;

use crate::generic::{optional_text, BooruPost, BooruPostView, Rating};
use crate::shared::client::{RatingKeyword, TagText};
use vstd::prelude::*;

verus! {

/// A post as Danbooru returns it.
#[derive(Debug, Clone)]
pub struct DanbooruPost {
    pub id: u32,
    pub created_at: String,
    pub updated_at: String,
    pub uploader_id: u32,
    pub approver_id: u32,
    pub tag_string: String,
    pub tag_string_general: String,
    pub tag_string_artist: String,
    pub tag_string_copyright: String,
    pub tag_string_character: String,
    pub tag_string_meta: String,
    pub rating: Option<DanbooruRating>,
    pub parent_id: Option<u32>,
    pub pixiv_id: Option<u32>,
    pub source: String,
    pub md5: Option<String>,
    pub file_url: String,
    pub large_file_url: String,
    pub preview_file_url: String,
    pub file_ext: String,
    pub file_size: u32,
    pub image_width: u32,
    pub image_height: u32,
    pub score: i32,
    pub up_score: i32,
    pub down_score: i32,
    pub fav_count: u32,
    pub tag_count_general: u32,
    pub tag_count_artist: u32,
    pub tag_count_copyright: u32,
    pub tag_count_character: u32,
    pub tag_count_meta: u32,
    pub last_comment_bumped_at: Option<String>,
    pub last_noted_at: Option<String>,
    pub has_large: bool,
    pub has_children: bool,
    pub has_visible_children: bool,
    pub has_active_children: bool,
    pub is_banned: bool,
    pub is_deleted: bool,
    pub is_flagged: bool,
    pub is_pending: bool,
    pub bit_flags: u32,
}

/// Danbooru's ratings. It has none that is called safe.
#[derive(Debug, Clone, Copy, PartialEq, Eq, Structural)]
pub enum DanbooruRating {
    Explicit,
    Questionable,
    Sensitive,
    General,
}

impl RatingKeyword for DanbooruRating {
    open spec fn keyword(&self) -> Seq<char> {
        match self {
            DanbooruRating::Explicit => "explicit"@,
            DanbooruRating::Questionable => "questionable"@,
            DanbooruRating::Sensitive => "sensitive"@,
            DanbooruRating::General => "general"@,
        }
    }

    fn as_str(&self) -> (s: &'static str) {
        match self {
            DanbooruRating::Explicit => "explicit",
            DanbooruRating::Questionable => "questionable",
            DanbooruRating::Sensitive => "sensitive",
            DanbooruRating::General => "general",
        }
    }
}

impl TagText for DanbooruRating {
    open spec fn tag_text(&self) -> Seq<char> {
        self.keyword()
    }

    fn to_tag_text(&self) -> (s: String) {
        self.to_string()
    }
}

impl DanbooruRating {
    pub fn to_string(&self) -> (s: String)
        ensures
            s@ == self.keyword(),
    {
        self.as_str().to_owned()
    }

    /// The rating that a query for Danbooru carries in place of a canonical
    /// one. Safe and sensitive both become general: of the canonical ratings
    /// only explicit, questionable and general come back as they went.
    pub open spec fn of_canonical(rating: Rating) -> DanbooruRating {
        match rating {
            Rating::Explicit => DanbooruRating::Explicit,
            Rating::Questionable => DanbooruRating::Questionable,
            Rating::Safe => DanbooruRating::General,
            Rating::Sensitive => DanbooruRating::General,
            Rating::General => DanbooruRating::General,
        }
    }

    /// The canonical rating of a post that Danbooru rated so.
    pub open spec fn canonical(self) -> Rating {
        match self {
            DanbooruRating::Explicit => Rating::Explicit,
            DanbooruRating::Questionable => Rating::Questionable,
            DanbooruRating::Sensitive => Rating::Sensitive,
            DanbooruRating::General => Rating::General,
        }
    }

    /// Whether a canonical rating survives the way to Danbooru and back.
    pub open spec fn represents(rating: Rating) -> bool {
        rating is Explicit || rating is Questionable || rating is General
    }

    /// A canonical rating comes back from Danbooru as it went exactly when
    /// Danbooru represents it.
    pub proof fn lemma_round_trip(rating: Rating)
        ensures
            Self::represents(rating) <==> Self::of_canonical(rating).canonical() == rating,
            Self::of_canonical(rating).canonical() == if Self::represents(rating) {
                rating
            } else {
                Rating::General
            },
    {
    }
}

impl vstd::std_specs::convert::FromSpecImpl<Rating> for DanbooruRating {
    open spec fn obeys_from_spec() -> bool {
        true
    }

    open spec fn from_spec(value: Rating) -> Self {
        match value {
            Rating::Explicit => DanbooruRating::Explicit,
            Rating::Questionable => DanbooruRating::Questionable,
            Rating::Safe => DanbooruRating::General,
            Rating::Sensitive => DanbooruRating::General,
            Rating::General => DanbooruRating::General,
        }
    }
}

impl From<Rating> for DanbooruRating {
    fn from(value: Rating) -> (out: Self) {
        match value {
            Rating::Explicit => DanbooruRating::Explicit,
            Rating::Questionable => DanbooruRating::Questionable,
            Rating::Safe => DanbooruRating::General,
            Rating::Sensitive => DanbooruRating::General,
            Rating::General => DanbooruRating::General,
        }
    }
}

impl vstd::std_specs::convert::FromSpecImpl<DanbooruRating> for Rating {
    open spec fn obeys_from_spec() -> bool {
        true
    }

    open spec fn from_spec(value: DanbooruRating) -> Self {
        value.canonical()
    }
}

impl From<DanbooruRating> for Rating {
    fn from(value: DanbooruRating) -> (out: Self)
        ensures
            out == value.canonical(),
    {
        match value {
            DanbooruRating::Explicit => Rating::Explicit,
            DanbooruRating::Questionable => Rating::Questionable,
            DanbooruRating::Sensitive => Rating::Sensitive,
            DanbooruRating::General => Rating::General,
        }
    }
}

/// The rating that a post counts as having where Danbooru gives none.
pub open spec fn rating_or_sensitive(rating: Option<DanbooruRating>) -> DanbooruRating {
    match rating {
        Some(rating) => rating,
        None => DanbooruRating::Sensitive,
    }
}

/// A Danbooru post in the canonical schema. Danbooru names no image file, so
/// there is none; a post without a rating counts as sensitive.
pub open spec fn normalized(post: DanbooruPost) -> BooruPostView {
    BooruPostView {
        id: post.id,
        created_at: Some(post.created_at@),
        score: post.score as i64,
        width: post.image_width,
        height: post.image_height,
        md5: optional_text(post.md5),
        file_url: Some(post.file_url@),
        tags: post.tag_string@,
        image: None,
        source: Some(post.source@),
        rating: rating_or_sensitive(post.rating).canonical(),
    }
}

impl vstd::std_specs::convert::FromSpecImpl<DanbooruPost> for BooruPost {
    open spec fn obeys_from_spec() -> bool {
        true
    }

    open spec fn from_spec(value: DanbooruPost) -> Self {
        BooruPost {
            id: value.id,
            created_at: Some(value.created_at),
            score: value.score as i64,
            width: value.image_width,
            height: value.image_height,
            md5: value.md5,
            file_url: Some(value.file_url),
            tags: value.tag_string,
            image: None,
            source: Some(value.source),
            rating: rating_or_sensitive(value.rating).canonical(),
        }
    }
}

impl From<DanbooruPost> for BooruPost {
    fn from(value: DanbooruPost) -> (out: Self)
        ensures
            out@ == normalized(value),
    {
        let rating = match value.rating {
            Some(rating) => rating,
            None => DanbooruRating::Sensitive,
        };
        BooruPost {
            id: value.id,
            created_at: Some(value.created_at),
            score: value.score as i64,
            width: value.image_width,
            height: value.image_height,
            md5: value.md5,
            file_url: Some(value.file_url),
            tags: value.tag_string,
            image: None,
            source: Some(value.source),
            rating: Rating::from(rating),
        }
    }
}

} // verus!
