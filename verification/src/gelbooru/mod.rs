//! Gelbooru: its ratings, its posts, and its requests.
pub mod client;
pub mod model;

pub use self::model::{GelbooruPost, GelbooruRating, GelbooruResponse};
