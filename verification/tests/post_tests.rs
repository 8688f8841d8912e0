use rusty_booru::danbooru::client::DanbooruClient;
use rusty_booru::danbooru::{DanbooruPost, DanbooruRating};
use rusty_booru::gelbooru::client::GelbooruClient;
use rusty_booru::gelbooru::{GelbooruPost, GelbooruRating, GelbooruResponse};
use rusty_booru::generic::client::normalize_all;
use rusty_booru::generic::{BooruPost, Rating};
use rusty_booru::safebooru::client::SafebooruClient;
use rusty_booru::safebooru::model::IMAGE_DIRECTORY;
use rusty_booru::safebooru::{SafebooruPost, SafebooruRating};
use rusty_booru::shared::client::{ClientQueryDispatcher, DispatcherTrait};
use rusty_booru::shared::first_post;

fn danbooru_post(id: u32, rating: Option<DanbooruRating>) -> DanbooruPost {
    DanbooruPost {
        id,
        created_at: "2023-01-15T10:00:00.000-05:00".to_string(),
        updated_at: "2023-01-16T10:00:00.000-05:00".to_string(),
        uploader_id: 1,
        approver_id: 2,
        tag_string: "kafuu_chino bangs".to_string(),
        tag_string_general: "bangs".to_string(),
        tag_string_artist: String::new(),
        tag_string_copyright: String::new(),
        tag_string_character: "kafuu_chino".to_string(),
        tag_string_meta: String::new(),
        rating,
        parent_id: None,
        pixiv_id: Some(7),
        source: "https://example.org/source".to_string(),
        md5: Some("15a1b49c26f5c684807a2f0b838f9e4c".to_string()),
        file_url: "https://example.org/file.jpg".to_string(),
        large_file_url: "https://example.org/large.jpg".to_string(),
        preview_file_url: "https://example.org/preview.jpg".to_string(),
        file_ext: "jpg".to_string(),
        file_size: 1000,
        image_width: 640,
        image_height: 480,
        score: -3,
        up_score: 1,
        down_score: -4,
        fav_count: 0,
        tag_count_general: 1,
        tag_count_artist: 0,
        tag_count_copyright: 0,
        tag_count_character: 1,
        tag_count_meta: 0,
        last_comment_bumped_at: None,
        last_noted_at: None,
        has_large: false,
        has_children: false,
        has_visible_children: false,
        has_active_children: false,
        is_banned: false,
        is_deleted: false,
        is_flagged: false,
        is_pending: false,
        bit_flags: 0,
    }
}

fn gelbooru_post(id: u32) -> GelbooruPost {
    GelbooruPost {
        id,
        created_at: "Sun Jan 15 10:00:00 -0600 2023".to_string(),
        score: 12,
        width: 800,
        height: 600,
        md5: "e40b797a0e26755b2c0dd7a34d8c95ce".to_string(),
        file_url: "https://img3.gelbooru.com/images/e4/0b/file.jpg".to_string(),
        tags: "kafuu_chino table".to_string(),
        image: "file.jpg".to_string(),
        source: "https://example.org/source".to_string(),
        rating: GelbooruRating::Sensitive,
    }
}

fn safebooru_post(id: u32, image: &str, score: Option<u32>) -> SafebooruPost {
    SafebooruPost {
        id,
        score,
        height: 600,
        width: 800,
        hash: "3e407a7848804119f1064c2aac731545".to_string(),
        tags: "kafuu_chino".to_string(),
        image: image.to_string(),
        change: 1673776800,
        rating: SafebooruRating::General,
    }
}

#[test]
fn danbooru_post_in_the_canonical_schema() {
    let post = BooruPost::from(danbooru_post(9423, Some(DanbooruRating::General)));
    assert_eq!(9423, post.id);
    assert_eq!(Some("2023-01-15T10:00:00.000-05:00".to_string()), post.created_at);
    assert_eq!(-3, post.score);
    assert_eq!(640, post.width);
    assert_eq!(480, post.height);
    assert_eq!(Some("15a1b49c26f5c684807a2f0b838f9e4c".to_string()), post.md5);
    assert_eq!(Some("https://example.org/file.jpg".to_string()), post.file_url);
    assert_eq!("kafuu_chino bangs", post.tags);
    assert_eq!(None, post.image);
    assert_eq!(Some("https://example.org/source".to_string()), post.source);
    assert_eq!(Rating::General, post.rating);
}

#[test]
fn danbooru_post_without_a_rating_counts_as_sensitive() {
    let post = BooruPost::from(danbooru_post(1, None));
    assert_eq!(Rating::Sensitive, post.rating);
    let post = BooruPost::from(danbooru_post(1, Some(DanbooruRating::Explicit)));
    assert_eq!(Rating::Explicit, post.rating);
}

#[test]
fn danbooru_post_without_md5_has_none() {
    let mut raw = danbooru_post(1, None);
    raw.md5 = None;
    raw.score = i32::MIN;
    let post = BooruPost::from(raw);
    assert_eq!(None, post.md5);
    assert_eq!(-2147483648, post.score);
}

#[test]
fn gelbooru_post_in_the_canonical_schema() {
    let post: BooruPost = gelbooru_post(7898595).into();
    assert_eq!(7898595, post.id);
    assert_eq!(Some("Sun Jan 15 10:00:00 -0600 2023".to_string()), post.created_at);
    assert_eq!(12, post.score);
    assert_eq!(800, post.width);
    assert_eq!(600, post.height);
    assert_eq!(Some("e40b797a0e26755b2c0dd7a34d8c95ce".to_string()), post.md5);
    assert_eq!(
        Some("https://img3.gelbooru.com/images/e4/0b/file.jpg".to_string()),
        post.file_url
    );
    assert_eq!("kafuu_chino table", post.tags);
    assert_eq!(Some("file.jpg".to_string()), post.image);
    assert_eq!(Some("https://example.org/source".to_string()), post.source);
    assert_eq!(Rating::Sensitive, post.rating);
}

#[test]
fn gelbooru_score_fits_whatever_it_is() {
    let mut raw = gelbooru_post(1);
    raw.score = u32::MAX;
    assert_eq!(4294967295, BooruPost::from(raw).score);
}

#[test]
fn safebooru_file_url_is_made_of_the_image_name() {
    let post = BooruPost::from(safebooru_post(4683505, "abc123.jpg", Some(4)));
    assert_eq!(
        Some("https://safebooru.org/images/4491/abc123.jpg".to_string()),
        post.file_url
    );
    assert_eq!(Some("abc123.jpg".to_string()), post.image);
    assert_eq!("/images/4491/", IMAGE_DIRECTORY);
}

#[test]
fn assert_file_url_safebooru() {
    let post = BooruPost::from(safebooru_post(
        4683505,
        "d0e26173ad1896ca7c187c85a9d38f55329927b9.jpg",
        None,
    ));
    assert!(
        post.file_url.unwrap()
            == "https://safebooru.org/images/4491/d0e26173ad1896ca7c187c85a9d38f55329927b9.jpg"
    );
}

#[test]
fn safebooru_post_in_the_canonical_schema() {
    let post = BooruPost::from(safebooru_post(4348760, "a.png", Some(4)));
    assert_eq!(4348760, post.id);
    assert_eq!(None, post.created_at);
    assert_eq!(4, post.score);
    assert_eq!(800, post.width);
    assert_eq!(600, post.height);
    assert_eq!(None, post.md5);
    assert_eq!("kafuu_chino", post.tags);
    assert_eq!(None, post.source);
    assert_eq!(Rating::General, post.rating);
}

#[test]
fn safebooru_post_without_a_score_has_zero() {
    let post = BooruPost::from(safebooru_post(1, "a.png", None));
    assert_eq!(0, post.score);
}

#[test]
fn first_post_of_an_empty_list_is_none() {
    assert!(first_post(Vec::<SafebooruPost>::new()).is_none());
    assert!(first_post(Vec::<u32>::new()).is_none());
}

#[test]
fn first_post_is_the_first() {
    assert_eq!(Some(3), first_post(vec![3, 1, 2]));
    assert_eq!(Some(5), first_post(vec![5]));
    let found = first_post(vec![safebooru_post(10, "a", None), safebooru_post(11, "b", None)]);
    assert_eq!(10, found.unwrap().id);
}

#[test]
fn gelbooru_lookup_of_an_unknown_id_finds_nothing() {
    let answer = GelbooruResponse { posts: Vec::new() };
    assert!(ClientQueryDispatcher::<GelbooruClient>::post(answer).is_none());
    let answer = GelbooruResponse { posts: Vec::new() };
    assert!(ClientQueryDispatcher::<GelbooruClient>::posts(answer).is_empty());
}

#[test]
fn gelbooru_lookup_finds_the_first_post() {
    let answer = GelbooruResponse { posts: vec![gelbooru_post(7), gelbooru_post(8)] };
    assert_eq!(7, ClientQueryDispatcher::<GelbooruClient>::post(answer).unwrap().id);
    let answer = GelbooruResponse { posts: vec![gelbooru_post(7), gelbooru_post(8)] };
    let posts = ClientQueryDispatcher::<GelbooruClient>::posts(answer);
    assert_eq!(vec![7, 8], posts.iter().map(|p| p.id).collect::<Vec<u32>>());
}

#[test]
fn safebooru_lookup_of_an_unknown_id_finds_nothing() {
    assert!(ClientQueryDispatcher::<SafebooruClient>::post(Vec::new()).is_none());
}

#[test]
fn safebooru_lookup_finds_the_first_post() {
    let answer = vec![safebooru_post(4348760, "a", None), safebooru_post(2, "b", None)];
    let found = ClientQueryDispatcher::<SafebooruClient>::post(answer).unwrap();
    assert_eq!(4348760, found.id);
    assert_eq!("3e407a7848804119f1064c2aac731545", found.hash);
    let answer = vec![safebooru_post(1, "a", None), safebooru_post(2, "b", None)];
    let posts = ClientQueryDispatcher::<SafebooruClient>::posts(answer);
    assert_eq!(vec![1, 2], posts.iter().map(|p| p.id).collect::<Vec<u32>>());
}

#[test]
fn danbooru_lookup_is_the_post() {
    let found = ClientQueryDispatcher::<DanbooruClient>::post(danbooru_post(9423, None));
    assert_eq!(
        "15a1b49c26f5c684807a2f0b838f9e4c",
        found.unwrap().md5.unwrap()
    );
    let posts = ClientQueryDispatcher::<DanbooruClient>::posts(vec![
        danbooru_post(3, None),
        danbooru_post(1, None),
    ]);
    assert_eq!(vec![3, 1], posts.iter().map(|p| p.id).collect::<Vec<u32>>());
}

#[test]
fn normalize_all_keeps_order_and_number() {
    let posts = vec![
        safebooru_post(3, "c.jpg", Some(1)),
        safebooru_post(1, "a.jpg", None),
        safebooru_post(2, "b.jpg", Some(5)),
    ];
    let normalized = normalize_all(posts);
    assert_eq!(vec![3, 1, 2], normalized.iter().map(|p| p.id).collect::<Vec<u32>>());
    assert_eq!(
        Some("https://safebooru.org/images/4491/a.jpg".to_string()),
        normalized[1].file_url
    );
    assert_eq!(5, normalized[2].score);
    assert!(normalize_all(Vec::<GelbooruPost>::new()).is_empty());
    let normalized = normalize_all(vec![danbooru_post(5, None)]);
    assert_eq!(1, normalized.len());
    assert_eq!(Rating::Sensitive, normalized[0].rating);
}
