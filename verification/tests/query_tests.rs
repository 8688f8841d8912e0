use rusty_booru::danbooru::client::{DanbooruClient, PLAIN_TAG_LIMIT};
use rusty_booru::danbooru::DanbooruRating;
use rusty_booru::gelbooru::client::GelbooruClient;
use rusty_booru::gelbooru::GelbooruRating;
use rusty_booru::safebooru::client::SafebooruClient;
use rusty_booru::shared::client::{
    ClientBuilder, ClientInformation, ClientQueryBuilder, QueryBuilderRules, ValidationType,
    WithClientBuilder, DEFAULT_LIMIT,
};
use rusty_booru::shared::{Sort, Tag, Tags, ValidationError};

#[test]
fn new_query_has_no_tags_and_asks_for_a_hundred_posts() {
    let query = ClientQueryBuilder::<DanbooruClient>::new();
    assert!(query.tags.0.is_empty());
    assert_eq!(100, query.limit);
    assert_eq!(100, DEFAULT_LIMIT);
    let query = ClientQueryBuilder::<GelbooruClient>::default();
    assert!(query.tags.0.is_empty());
    assert_eq!(100, query.limit);
}

#[test]
fn builder_adds_tags_in_order() {
    let mut query = ClientQueryBuilder::<GelbooruClient>::new();
    query
        .tag("kafuu_chino")
        .rating(GelbooruRating::General)
        .blacklist_tag("bangs")
        .sort(Sort::Score)
        .random()
        .any_tag(Tag::Plain("table".to_string()))
        .limit(3);
    assert_eq!(6, query.tags.0.len());
    assert_eq!(
        "kafuu_chino rating:general -bangs sort:score sort:random table",
        query.tags.unpack()
    );
    assert_eq!(3, query.limit);
}

#[test]
fn limit_is_passed_on_uncapped() {
    let mut query = ClientQueryBuilder::<DanbooruClient>::new();
    query.limit(5000);
    assert_eq!(5000, query.limit);
    let validated = query.validate().unwrap();
    assert_eq!(5000, validated.limit());
    query.limit(0);
    assert_eq!(0, query.limit);
}

#[test]
fn the_last_limit_counts() {
    let mut query = ClientQueryBuilder::<DanbooruClient>::new();
    query.limit(3).tag("a").limit(7);
    assert_eq!(7, query.limit);
    assert_eq!("a", query.tags.unpack());
}

#[test]
fn danbooru_takes_two_plain_tags() {
    assert_eq!(2, PLAIN_TAG_LIMIT);
    let mut query = ClientQueryBuilder::<DanbooruClient>::new();
    query.tag("kafuu_chino").tag("bangs").limit(3);
    let validated = query.validate().unwrap();
    assert_eq!("kafuu_chino bangs", validated.tags().unpack());
    assert_eq!(3, validated.limit());
    assert_eq!("kafuu_chino bangs", validated.as_builder().tags.unpack());
}

#[test]
fn danbooru_refuses_a_third_plain_tag() {
    let mut query = ClientQueryBuilder::<DanbooruClient>::new();
    query.tag("a").tag("b").tag("c");
    assert_eq!(Err(ValidationError::TooManyTags), query.validate().map(|_| ()));
    let bound = DanbooruClient::builder().query_raw(&mut query);
    assert_eq!(Err(ValidationError::TooManyTags), bound.map(|_| ()));
    assert_eq!(3, query.tags.0.len());
}

#[test]
fn danbooru_counts_plain_tags_only() {
    let mut query = ClientQueryBuilder::<DanbooruClient>::new();
    query
        .tag("a")
        .blacklist_tag("x")
        .blacklist_tag("y")
        .rating(DanbooruRating::General)
        .sort(Sort::Id)
        .tag("b");
    assert!(query.validate().is_ok());
    query.tag("c");
    assert!(query.validate().is_err());
}

#[test]
fn building_never_fails_before_validation() {
    let mut query = ClientQueryBuilder::<DanbooruClient>::new();
    for i in 0..10u32 {
        query.tag(&i.to_string());
    }
    assert_eq!(10, query.tags.0.len());
    assert!(query.validate().is_err());
}

#[test]
fn gelbooru_and_safebooru_take_any_number_of_plain_tags() {
    let mut query = ClientQueryBuilder::<GelbooruClient>::new();
    for i in 0..10u32 {
        query.tag(&i.to_string());
    }
    assert!(query.validate().is_ok());
    let mut query = ClientQueryBuilder::<SafebooruClient>::new();
    for i in 0..10u32 {
        query.tag(&i.to_string());
    }
    assert!(query.validate().is_ok());
}

#[test]
fn rules_can_be_asked_directly() {
    let two: Tags<DanbooruClient> =
        Tags(vec![Tag::Plain("a".to_string()), Tag::Plain("b".to_string())]);
    assert_eq!(Ok(()), DanbooruClient::validate(ValidationType::Tags(&two)));
    let three: Tags<DanbooruClient> = Tags(vec![
        Tag::Plain("a".to_string()),
        Tag::Plain("b".to_string()),
        Tag::Plain("c".to_string()),
    ]);
    assert_eq!(
        Err(ValidationError::TooManyTags),
        DanbooruClient::validate(ValidationType::Tags(&three))
    );
    let three: Tags<GelbooruClient> = Tags(vec![
        Tag::Plain("a".to_string()),
        Tag::Plain("b".to_string()),
        Tag::Plain("c".to_string()),
    ]);
    assert_eq!(Ok(()), GelbooruClient::validate(ValidationType::Tags(&three)));
}

#[test]
fn validation_error_has_a_message() {
    assert_eq!(
        "Requested booru client with way too many tags.",
        ValidationError::TooManyTags.to_string()
    );
}

#[test]
fn builder_starts_at_the_url_of_its_backend() {
    assert_eq!("https://danbooru.donmai.us", DanbooruClient::builder().url);
    assert_eq!("https://gelbooru.com", GelbooruClient::builder().url);
    assert_eq!("https://safebooru.org", SafebooruClient::builder().url);
    let builder = ClientBuilder::<DanbooruClient>::default();
    assert_eq!("https://danbooru.donmai.us", builder.url);
    assert_eq!(None, builder.key);
    assert_eq!(None, builder.user);
}

#[test]
fn default_url_points_the_client_elsewhere() {
    let mut builder = DanbooruClient::builder();
    builder.default_url("https://testbooru.donmai.us");
    assert_eq!("https://testbooru.donmai.us", builder.url);
    assert_eq!(None, builder.key);
}

#[test]
fn credentials_are_kept() {
    let mut builder = GelbooruClient::builder();
    builder
        .set_credentials("key".to_string(), "user".to_string())
        .default_url("https://example.org");
    assert_eq!(Some("key".to_string()), builder.key);
    assert_eq!(Some("user".to_string()), builder.user);
    assert_eq!("https://example.org", builder.url);
    let copy = builder.clone();
    assert_eq!(Some("key".to_string()), copy.key);
    assert_eq!(Some("user".to_string()), copy.user);
    assert_eq!("https://example.org", copy.url);
}

#[test]
fn query_binds_what_the_closure_builds() {
    let dispatcher = DanbooruClient::builder()
        .default_url("https://testbooru.donmai.us")
        .query(|q| q.tag("kafuu_chino").tag("bangs").limit(3))
        .unwrap();
    assert_eq!("https://testbooru.donmai.us", dispatcher.builder.url);
    assert_eq!("kafuu_chino bangs", dispatcher.query.tags().unpack());
    assert_eq!(3, dispatcher.query.limit());
}

#[test]
fn query_refuses_what_the_backend_refuses() {
    let bound = DanbooruClient::builder().query(|q| q.tag("a").tag("b").tag("c"));
    assert_eq!(Err(ValidationError::TooManyTags), bound.map(|_| ()));
}

#[test]
fn dispatch_binds_the_empty_query() {
    let dispatcher = DanbooruClient::builder().dispatch();
    assert_eq!("", dispatcher.query.tags().unpack());
    assert_eq!(100, dispatcher.query.limit());
    assert_eq!("https://danbooru.donmai.us", dispatcher.builder.url);
}

#[test]
fn validated_query_can_be_copied() {
    let mut query = ClientQueryBuilder::<SafebooruClient>::new();
    query.tag("a").sort(Sort::Width).limit(9);
    let validated = query.validate().unwrap();
    let copy = validated.clone();
    assert_eq!("a sort:width", copy.tags().unpack());
    assert_eq!(9, copy.limit());
    let again = query.clone();
    assert_eq!("a sort:width", again.tags.unpack());
    assert_eq!(9, again.limit);
}

#[test]
fn what_has_a_keyword_can_be_a_tag() {
    let mut query = ClientQueryBuilder::<DanbooruClient>::new();
    query
        .tag("kafuu_chino")
        .blacklist_tag(DanbooruRating::Explicit)
        .blacklist_tag(Sort::Random);
    assert_eq!("kafuu_chino -explicit -random", query.tags.unpack());
    assert_eq!(1, query.tags.count_plain());
    let mut query = ClientQueryBuilder::<GelbooruClient>::new();
    query.tag(GelbooruRating::Safe).blacklist_tag(GelbooruRating::Explicit);
    assert_eq!("safe -explicit", query.tags.unpack());
}

#[test]
fn owned_and_borrowed_text_can_be_a_tag() {
    let owned = "table".to_string();
    let mut query = ClientQueryBuilder::<SafebooruClient>::new();
    query
        .tag(&owned)
        .blacklist_tag(owned.as_str())
        .tag(owned.clone())
        .blacklist_tag(owned);
    assert_eq!("table -table table -table", query.tags.unpack());
}

#[test]
fn each_backend_names_its_url_and_sort_keyword() {
    assert_eq!("https://danbooru.donmai.us", DanbooruClient::url());
    assert_eq!("order:", DanbooruClient::sort());
    assert_eq!("https://gelbooru.com", GelbooruClient::url());
    assert_eq!("sort:", GelbooruClient::sort());
    assert_eq!("https://safebooru.org", SafebooruClient::url());
    assert_eq!("sort:", SafebooruClient::sort());
    assert_eq!(DanbooruClient::URL, DanbooruClient::url());
    assert_eq!(DanbooruClient::SORT, DanbooruClient::sort());
    assert_eq!(GelbooruClient::URL, GelbooruClient::url());
    assert_eq!(GelbooruClient::SORT, GelbooruClient::sort());
    assert_eq!(SafebooruClient::URL, SafebooruClient::url());
    assert_eq!(SafebooruClient::SORT, SafebooruClient::sort());
}
