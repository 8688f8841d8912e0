//! The canonical vocabulary: ratings and posts as every backend's are mapped to.
pub mod client;

use crate::shared::client::{RatingKeyword, TagText};
use vstd::prelude::*;

verus! {

/// How explicit a post is, in the vocabulary shared by all backends.
#[derive(Debug, Clone, Copy, PartialEq, Eq, Structural)]
pub enum Rating {
    Explicit,
    Questionable,
    Safe,
    Sensitive,
    General,
}

impl RatingKeyword for Rating {
    open spec fn keyword(&self) -> Seq<char> {
        match self {
            Rating::Explicit => "explicit"@,
            Rating::Questionable => "questionable"@,
            Rating::Safe => "safe"@,
            Rating::Sensitive => "sensitive"@,
            Rating::General => "general"@,
        }
    }

    fn as_str(&self) -> (s: &'static str) {
        match self {
            Rating::Explicit => "explicit",
            Rating::Questionable => "questionable",
            Rating::Safe => "safe",
            Rating::Sensitive => "sensitive",
            Rating::General => "general",
        }
    }
}

impl TagText for Rating {
    open spec fn tag_text(&self) -> Seq<char> {
        self.keyword()
    }

    fn to_tag_text(&self) -> (s: String) {
        self.to_string()
    }
}

impl Rating {
    pub fn to_string(&self) -> (s: String)
        ensures
            s@ == self.keyword(),
    {
        self.as_str().to_owned()
    }
}

/// The text of an optional string, if there is one.
pub open spec fn optional_text(text: Option<String>) -> Option<Seq<char>> {
    match text {
        Some(text) => Some(text@),
        None => None,
    }
}

/// A post in the schema shared by all backends.
#[derive(Debug, Clone)]
pub struct BooruPost {
    pub id: u32,
    pub created_at: Option<String>,
    pub score: i64,
    pub width: u32,
    pub height: u32,
    pub md5: Option<String>,
    pub file_url: Option<String>,
    /// The post's tags, separated by spaces.
    pub tags: String,
    pub image: Option<String>,
    pub source: Option<String>,
    pub rating: Rating,
}

/// What a `BooruPost` holds.
pub struct BooruPostView {
    pub id: u32,
    pub created_at: Option<Seq<char>>,
    pub score: i64,
    pub width: u32,
    pub height: u32,
    pub md5: Option<Seq<char>>,
    pub file_url: Option<Seq<char>>,
    pub tags: Seq<char>,
    pub image: Option<Seq<char>>,
    pub source: Option<Seq<char>>,
    pub rating: Rating,
}

impl View for BooruPost {
    type V = BooruPostView;

    open spec fn view(&self) -> BooruPostView {
        BooruPostView {
            id: self.id,
            created_at: optional_text(self.created_at),
            score: self.score,
            width: self.width,
            height: self.height,
            md5: optional_text(self.md5),
            file_url: optional_text(self.file_url),
            tags: self.tags@,
            image: optional_text(self.image),
            source: optional_text(self.source),
            rating: self.rating,
        }
    }
}

/// One suggestion of a backend's tag search.
#[derive(Debug, Clone)]
pub struct AutoCompleteItem {
    pub value: String,
    pub label: String,
}

} // verus!
