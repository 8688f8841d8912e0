use reqwest::header::USER_AGENT;
use rusty_booru::danbooru::client::DanbooruClient;
use rusty_booru::danbooru::DanbooruRating;
use rusty_booru::gelbooru::client::GelbooruClient;
use rusty_booru::generic::client::{BooruOption, GenericClient};
use rusty_booru::generic::Rating;
use rusty_booru::safebooru::client::SafebooruClient;
use rusty_booru::shared::request::QueryVec;
use rusty_booru::shared::{Sort, Tag, ValidationError};

fn pairs(list: &[(&str, &str)]) -> QueryVec {
    list.iter()
        .map(|(name, value)| (name.to_string(), value.to_string()))
        .collect()
}

#[test]
fn every_backend_is_an_option() {
    assert_eq!(
        vec![BooruOption::Gelbooru, BooruOption::Safebooru, BooruOption::Danbooru],
        BooruOption::iter()
    );
}

#[test]
fn canonical_query_starts_empty() {
    let query = GenericClient::query();
    assert!(query.tags.0.is_empty());
    assert_eq!(100, query.limit);
}

#[test]
fn canonical_query_is_never_refused_as_such() {
    let mut query = GenericClient::query();
    for i in 0..10u32 {
        query.tag(&i.to_string());
    }
    assert!(query.validate().is_ok());
}

#[test]
fn conversion_maps_ratings_and_keeps_the_rest() {
    let mut query = GenericClient::query();
    query
        .tag("kafuu_chino")
        .rating(Rating::Sensitive)
        .blacklist_tag("bangs")
        .sort(Sort::Score)
        .rating(Rating::Safe)
        .limit(3);
    assert_eq!(
        "kafuu_chino rating:general -bangs order:score rating:general",
        query.convert::<DanbooruClient>().tags.unpack()
    );
    assert_eq!(
        "kafuu_chino rating:sensitive -bangs sort:score rating:safe",
        query.convert::<GelbooruClient>().tags.unpack()
    );
    assert_eq!(
        "kafuu_chino rating:questionable -bangs sort:score rating:safe",
        query.convert::<SafebooruClient>().tags.unpack()
    );
    assert_eq!(3, query.convert::<DanbooruClient>().limit);
    assert_eq!(3, query.convert::<GelbooruClient>().limit);
    assert_eq!(5, query.convert::<SafebooruClient>().tags.0.len());
}

#[test]
fn one_tag_converts_like_a_query_of_it() {
    let canonical: Tag<GenericClient> = Tag::Rating(Rating::Explicit);
    let converted: Tag<DanbooruClient> = Tag::from(&canonical);
    assert!(matches!(converted, Tag::Rating(DanbooruRating::Explicit)));
    let canonical: Tag<GenericClient> = Tag::Plain("a".to_string());
    let converted: Tag<DanbooruClient> = (&canonical).into();
    assert_eq!("a", converted.to_string());
    let canonical: Tag<GenericClient> = Tag::Sort(Sort::Updated);
    let converted: Tag<DanbooruClient> = Tag::from(&canonical);
    assert_eq!("order:updated", converted.to_string());
    let canonical: Tag<GenericClient> = Tag::Blacklist("b".to_string());
    let converted: Tag<GelbooruClient> = Tag::from(&canonical);
    assert_eq!("-b", converted.to_string());
}

#[test]
fn facade_asks_gelbooru() {
    let mut query = GenericClient::query();
    query.tag("kafuu_chino").rating(Rating::General).limit(3);
    let request = query.get_request(BooruOption::Gelbooru).unwrap();
    assert_eq!("https://gelbooru.com/index.php", request.url);
    assert_eq!(
        pairs(&[
            ("page", "dapi"),
            ("s", "post"),
            ("q", "index"),
            ("json", "1"),
            ("limit", "3"),
            ("tags", "kafuu_chino rating:general"),
        ]),
        request.query
    );
    assert!(request.headers.is_empty());
}

#[test]
fn facade_asks_danbooru() {
    let mut query = GenericClient::query();
    query.tag("chino").tag("bangs").limit(3);
    let request = query.get_request(BooruOption::Danbooru).unwrap();
    assert_eq!("https://danbooru.donmai.us/posts.json", request.url);
    assert_eq!(pairs(&[("limit", "3"), ("tags", "chino bangs")]), request.query);
    assert_eq!("PostmanRuntime/7.30.0", request.headers.get(USER_AGENT).unwrap());
}

#[test]
fn facade_asks_safebooru_for_a_post() {
    let query = GenericClient::query();
    let request = query.get_by_id_request(4683505, BooruOption::Safebooru).unwrap();
    assert_eq!("https://safebooru.org/index.php", request.url);
    assert_eq!(
        pairs(&[
            ("page", "dapi"),
            ("s", "post"),
            ("q", "index"),
            ("json", "1"),
            ("id", "4683505"),
        ]),
        request.query
    );
    let request = query.get_by_id_request(9423, BooruOption::Danbooru).unwrap();
    assert_eq!("https://danbooru.donmai.us/posts/9423.json", request.url);
    let request = query.get_by_id_request(1, BooruOption::Gelbooru).unwrap();
    assert_eq!("https://gelbooru.com/index.php", request.url);
}

#[test]
fn facade_asks_every_backend_for_suggestions() {
    let query = GenericClient::query();
    for booru in BooruOption::iter() {
        let request = query.get_autocomplete_request(booru, "f").unwrap();
        match booru {
            BooruOption::Gelbooru => {
                assert_eq!("https://gelbooru.com/index.php", request.url);
                assert_eq!(("term".to_string(), "f".to_string()), request.query[3]);
            }
            BooruOption::Safebooru => {
                assert_eq!("https://safebooru.org/autocomplete.php", request.url);
                assert_eq!(pairs(&[("q", "f")]), request.query);
            }
            BooruOption::Danbooru => {
                assert_eq!("https://danbooru.donmai.us/autocomplete.json", request.url);
                assert_eq!(("search[query]".to_string(), "f".to_string()), request.query[2]);
            }
        }
    }
}

#[test]
fn facade_holds_the_query_to_the_rules_of_the_chosen_backend() {
    let mut query = GenericClient::query();
    query.tag("a").tag("b").tag("c");
    assert_eq!(
        Err(ValidationError::TooManyTags),
        query.get_request(BooruOption::Danbooru).map(|_| ())
    );
    assert_eq!(
        Err(ValidationError::TooManyTags),
        query.get_by_id_request(1, BooruOption::Danbooru).map(|_| ())
    );
    assert_eq!(
        Err(ValidationError::TooManyTags),
        query.get_autocomplete_request(BooruOption::Danbooru, "f").map(|_| ())
    );
    assert!(query.get_request(BooruOption::Gelbooru).is_ok());
    assert!(query.get_request(BooruOption::Safebooru).is_ok());
}

#[test]
fn conversion_keeps_the_plain_tags_and_their_number() {
    let mut query = GenericClient::query();
    query
        .tag("a")
        .rating(Rating::Sensitive)
        .tag("b")
        .blacklist_tag("c")
        .sort(Sort::Id);
    let converted = query.convert::<DanbooruClient>();
    assert_eq!(query.tags.count_plain(), converted.tags.count_plain());
    assert_eq!(2, converted.tags.count_plain());
    assert!(converted.tags.0[0].is_plain());
    assert!(converted.tags.0[1].is_rating());
    assert!(converted.tags.0[2].is_plain());
    assert!(converted.tags.0[3].is_blacklist());
    assert!(converted.tags.0[4].is_sort());
}

#[test]
fn bind_succeeds_exactly_within_the_limit() {
    let mut query = GenericClient::query();
    query.tag("a").tag("b").limit(7);
    let dispatcher = query.bind::<DanbooruClient>().unwrap();
    assert_eq!("a b", dispatcher.query.tags().unpack());
    assert_eq!(7, dispatcher.query.limit());
    assert_eq!("https://danbooru.donmai.us", dispatcher.builder.url);
    query.tag("c");
    assert_eq!(
        Err(ValidationError::TooManyTags),
        query.bind::<DanbooruClient>().map(|_| ())
    );
    assert!(query.bind::<GelbooruClient>().is_ok());
    assert!(query.bind::<SafebooruClient>().is_ok());
}
