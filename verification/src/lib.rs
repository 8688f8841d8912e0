//! One query vocabulary for several imageboard backends.
//!
//! A query is a list of tags and a result limit. Each backend has its own
//! rating names, sort keyword, request layout and post schema; this crate
//! turns a query into the request that a backend expects and a backend's posts
//! into one common post type. It sends nothing itself: a dispatcher describes
//! the request, and the caller's transport carries it.
pub mod danbooru;
pub mod gelbooru;
pub mod generic;
pub mod safebooru;
pub mod shared;
