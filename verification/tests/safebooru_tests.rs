use rusty_booru::safebooru::model::SafebooruRating;
use rusty_booru::shared::model::Sort;

#[test]
fn safebooru_tests_parse_rating_tags() {
    assert_eq!("safe", SafebooruRating::Safe.to_string());
    assert_eq!("general", SafebooruRating::General.to_string());
    assert_eq!("questionable", SafebooruRating::Questionable.to_string());
    assert_eq!("explicit", SafebooruRating::Explicit.to_string());
}

#[test]
fn safebooru_tests_parse_sort_tags() {
    assert_eq!("id", Sort::Id.to_string());
    assert_eq!("score", Sort::Score.to_string());
    assert_eq!("rating", Sort::Rating.to_string());
    assert_eq!("user", Sort::User.to_string());
    assert_eq!("height", Sort::Height.to_string());
    assert_eq!("width", Sort::Width.to_string());
    assert_eq!("source", Sort::Source.to_string());
    assert_eq!("updated", Sort::Updated.to_string());
}
