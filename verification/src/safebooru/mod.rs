//! Safebooru: its ratings, its posts, and its requests.
pub mod client;
pub mod model;

pub use self::model::{SafebooruPost, SafebooruRating};
