use pinboard_rs::api::v1::notes::{List, Note};
use pinboard_rs::api::v1::posts::{Add, All, Dates, Delete, Get, Recent, Suggest, Update};
use pinboard_rs::api::v1::tags;
use pinboard_rs::api::v1::user::{ApiToken, Secret};
use pinboard_rs::api::v1::Limit;

static TITLE: &str = "Some Title";
static URL: &str = "http://pinboard.test/";

fn test_url() -> url::Url {
    url::Url::parse(URL).unwrap()
}

#[test]
fn list_limit() {
    assert_eq!(List::secs_between_calls(), 3)
}

#[test]
fn id_is_required() {
    let err = Note::builder().build().unwrap_err();
    assert_eq!(&err.to_string(), "`id` must be initialized")
}

#[test]
fn note_limit() {
    assert_eq!(Note::secs_between_calls(), 3)
}

#[test]
fn add_url_is_required() {
    let err = Add::builder().description(TITLE).build().unwrap_err();
    assert_eq!(&err.to_string(), "`url` must be initialized")
}

#[test]
fn description_is_required() {
    let add = Add::builder().url(test_url()).build().unwrap();
    assert_eq!(add.description(), URL)
}

#[test]
fn endpoint_tags_101() {
    let err = Add::builder()
        .url(test_url())
        .description(TITLE)
        .tags(vec!["one"; 101])
        .build()
        .unwrap_err();

    assert_eq!(
        &err.to_string(),
        "Endpoint only accepts up to 100 tags (received 101)"
    )
}

#[test]
fn add_limit() {
    assert_eq!(Add::secs_between_calls(), 3)
}

#[test]
fn endpoint_tags_8() {
    let err = All::builder().tags(vec!["one"; 8]).build().unwrap_err();

    assert_eq!(
        &err.to_string(),
        "Endpoint only accepts up to 3 tags (received 8)"
    )
}

#[test]
fn all_limit() {
    assert_eq!(All::secs_between_calls(), 300)
}

#[test]
fn endpoint_tag_4() {
    let err = Dates::builder()
        .tags(vec!["Tag1", "Tag2", "Tag3", "Tag4"])
        .build()
        .unwrap_err();
    assert_eq!(
        &err.to_string(),
        "Endpoint only accepts up to 3 tags (received 4)"
    )
}

#[test]
fn dates_limit() {
    assert_eq!(Dates::secs_between_calls(), 3)
}

#[test]
fn delete_url_is_required() {
    let err = Delete::builder().build().unwrap_err();
    assert_eq!(&err.to_string(), "`url` must be initialized")
}

#[test]
fn delete_limit() {
    assert_eq!(Delete::secs_between_calls(), 3)
}

#[test]
fn get_limit() {
    assert_eq!(Get::secs_between_calls(), 3)
}

#[test]
fn endpoint_tag_5() {
    let err = Recent::builder()
        .tags(vec!["Tag1", "Tag2", "Tag3", "Tag4", "Tag5"])
        .build()
        .unwrap_err();
    assert_eq!(
        &err.to_string(),
        "Endpoint only accepts up to 3 tags (received 5)"
    )
}

#[test]
fn endpoint_count_201() {
    let err = Recent::builder().count(201).build().unwrap_err();
    assert_eq!(
        &err.to_string(),
        "Endpoint only accepts `count` of 100 or less"
    )
}

#[test]
fn recent_limit() {
    assert_eq!(Recent::secs_between_calls(), 60)
}

#[test]
fn suggest_url_is_required() {
    let err = Suggest::builder().build().unwrap_err();
    assert_eq!(&err.to_string(), "`url` must be initialized")
}

#[test]
fn suggest_limit() {
    assert_eq!(Suggest::secs_between_calls(), 3)
}

#[test]
fn update_limit() {
    assert_eq!(Update::secs_between_calls(), 3)
}

#[test]
fn tag_is_required() {
    let err = tags::Delete::builder().build().unwrap_err();
    assert_eq!(&err.to_string(), "`tag` must be initialized")
}

#[test]
fn tags_delete_limit() {
    assert_eq!(tags::Delete::secs_between_calls(), 3)
}

#[test]
fn tags_get_limit() {
    assert_eq!(tags::Get::secs_between_calls(), 3)
}

#[test]
fn old_is_required() {
    let err = tags::Rename::builder().build().unwrap_err();
    assert_eq!(&err.to_string(), "`old` must be initialized")
}

#[test]
fn new_is_required() {
    let err = tags::Rename::builder().old_name("old").build().unwrap_err();
    assert_eq!(&err.to_string(), "`new` must be initialized")
}

#[test]
fn rename_limit() {
    assert_eq!(tags::Rename::secs_between_calls(), 3)
}

#[test]
fn api_token_limit() {
    assert_eq!(ApiToken::secs_between_calls(), 3)
}

#[test]
fn secret_limit() {
    assert_eq!(Secret::secs_between_calls(), 3)
}
