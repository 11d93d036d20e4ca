use pinboard_rs::api::endpoint_prelude::TagList;
use pinboard_rs::api::params::{bool_from_value, decimal_text, octet_count, pair_fits, str_equal};
use pinboard_rs::api::v1::posts::{Delete, Recent};
use pinboard_rs::api::{
    BuildError, Date, Endpoint, Method, ParamValue, QueryParams, Timestamp, YesNo,
};
use pinboard_rs::api::error::{check_limit, Constraint, RequiredField};
use url::Url;

#[test]
fn booleans_round_trip_through_their_text() {
    for b in [true, false] {
        assert_eq!(bool_from_value(&b.as_value()), Some(b));
    }
    assert_eq!(bool_from_value("yes"), None);
    assert_eq!(bool_from_value(""), None);
    assert_eq!(bool_from_value("True"), None);
}

#[test]
fn numbers_are_written_in_decimal() {
    assert_eq!(decimal_text(0), "0");
    assert_eq!(decimal_text(9), "9");
    assert_eq!(decimal_text(10), "10");
    assert_eq!(decimal_text(256), "256");
    assert_eq!(decimal_text(u64::MAX), "18446744073709551615");
    assert_eq!(77u8.as_value(), "77");
    assert_eq!(u8::MAX.as_value(), "255");
    assert_eq!(1_000_000u64.as_value(), "1000000");
}

#[test]
fn strings_pass_through_unchanged() {
    assert_eq!("a b&c=d".as_value(), "a b&c=d");
    assert_eq!(String::from("plain").as_value(), "plain");
    assert_eq!((&String::from("borrowed")).as_value(), "borrowed");
    assert!(str_equal("same", "same"));
    assert!(!str_equal("same", "sane"));
    assert!(!str_equal("same", "same "));
    assert!(str_equal("", ""));
}

#[test]
fn flags_read_yes_and_no() {
    assert_eq!(YesNo::Yes.as_value(), "yes");
    assert_eq!(YesNo::No.as_value(), "no");
    assert_eq!(YesNo::from_bool(true), YesNo::Yes);
    assert_eq!(YesNo::from_bool(false), YesNo::No);
    assert_eq!(YesNo::default(), YesNo::No);
}

#[test]
fn dates_are_written_year_month_day() {
    let date = Date::from_ymd_opt(2021, 3, 4).unwrap();
    assert_eq!(date.as_value(), "2021-03-04");
    assert_eq!((date.year(), date.month(), date.day()), (2021, 3, 4));
    assert_eq!(Date::from_ymd_opt(2024, 2, 29).unwrap().as_value(), "2024-02-29");
    assert_eq!(Date::from_ymd_opt(2023, 2, 29), None);
    assert_eq!(Date::from_ymd_opt(2023, 4, 31), None);
    assert_eq!(Date::from_ymd_opt(2023, 0, 1), None);
    assert_eq!(Date::from_ymd_opt(2023, 13, 1), None);
    assert_eq!(Date::from_ymd_opt(400000, 1, 1), None);
}

#[test]
fn timestamps_are_written_to_the_second_in_utc() {
    let instant = Timestamp::from_timestamp(61, 0).unwrap();
    assert_eq!(instant.as_value(), "1970-01-01T00:01:01Z");
    assert_eq!((instant.timestamp(), instant.timestamp_subsec_nanos()), (61, 0));
    let instant = Timestamp::from_timestamp(1_730_050_691, 999_999_999).unwrap();
    assert_eq!(instant.as_value(), "2024-10-27T17:38:11Z");
    assert_eq!(Timestamp::from_timestamp(i64::MAX, 0), None);
    assert_eq!(Timestamp::from_timestamp(0, 2_000_000_000), None);
}

#[test]
fn urls_are_written_as_their_serialization() {
    let url = Url::parse("http://pinboard.in").unwrap();
    assert_eq!((&url).as_value(), "http://pinboard.in/");
}

#[test]
fn tag_lists_are_joined_by_spaces() {
    assert_eq!((&TagList::from_strs(&vec![])).as_value(), "");
    assert_eq!((&TagList::from_strs(&vec!["one"])).as_value(), "one");
    let tags = TagList::from_strs(&vec!["one", "two", "three"]);
    assert_eq!(tags.len(), 3);
    assert_eq!((&tags).as_value(), "one two three");
    assert_eq!((&tags.duplicate()).as_value(), "one two three");
}

#[test]
fn query_params_keep_every_pair_in_order() {
    let mut params = QueryParams::new();
    params
        .push("a", "1")
        .push_opt("b", None::<u8>)
        .push_opt("c", Some(3u8))
        .push("a", true)
        .extend(vec![("x", 7u64), ("y", 8u64)]);
    assert_eq!(params.len(), 5);
    assert_eq!(params.get(0), Some(("a", "1")));
    assert_eq!(params.get(1), Some(("c", "3")));
    assert_eq!(params.get(2), Some(("a", "true")));
    assert_eq!(params.get(3), Some(("x", "7")));
    assert_eq!(params.get(4), Some(("y", "8")));
    assert_eq!(params.get(5), None);

    let mut url = Url::parse("https://example.net/path?lang=fr#nav").unwrap();
    params.add_to_url(&mut url);
    assert_eq!(
        url.as_str(),
        "https://example.net/path?lang=fr&a=1&c=3&a=true&x=7&y=8#nav"
    );
}

#[test]
fn values_are_percent_encoded_once() {
    let mut params = QueryParams::new();
    params.push("q", "bar & baz").push("saison", "\u{00C9}t\u{00E9}+hiver");
    let mut url = Url::parse("https://example.net/").unwrap();
    params.add_to_url(&mut url);
    assert_eq!(
        url.as_str(),
        "https://example.net/?q=bar+%26+baz&saison=%C3%89t%C3%A9%2Bhiver"
    );
    let pairs: Vec<(String, String)> = url.query_pairs().into_owned().collect();
    assert_eq!(
        pairs,
        vec![
            ("q".to_string(), "bar & baz".to_string()),
            ("saison".to_string(), "\u{00C9}t\u{00E9}+hiver".to_string())
        ]
    );
}

#[test]
fn a_bound_accepts_the_limit_and_refuses_one_more() {
    assert_eq!(check_limit(Constraint::Tags, 3, 3), Ok(()));
    assert_eq!(
        check_limit(Constraint::Tags, 3, 4),
        Err(BuildError::ConstraintViolation {
            constraint: Constraint::Tags,
            limit: 3,
            actual: 4
        })
    );
    assert!(Recent::builder().tags(vec!["a", "b", "c"]).build().is_ok());
    assert_eq!(
        Recent::builder()
            .tags(vec!["a", "b", "c", "d"])
            .build()
            .unwrap_err(),
        BuildError::ConstraintViolation {
            constraint: Constraint::Tags,
            limit: 3,
            actual: 4
        }
    );
    assert!(Recent::builder().count(100).build().is_ok());
    assert_eq!(
        Recent::builder().count(101).build().unwrap_err(),
        BuildError::ConstraintViolation {
            constraint: Constraint::Count,
            limit: 100,
            actual: 101
        }
    );
    let ok = Recent::builder().tags(vec![]).count(0).build().unwrap();
    ok.bounds_hold();
    assert_eq!(ok.parameters().get(0), Some(("tag", "")));
    assert_eq!(ok.parameters().get(1), Some(("count", "0")));
}

#[test]
fn tags_are_checked_before_count() {
    assert_eq!(
        Recent::builder()
            .count(201)
            .tags(vec!["a", "b", "c", "d"])
            .build()
            .unwrap_err()
            .to_string(),
        "Endpoint only accepts up to 3 tags (received 4)"
    );
}

#[test]
fn build_errors_describe_themselves() {
    assert_eq!(
        BuildError::MissingRequiredField {
            field: RequiredField::Tag
        }
        .to_string(),
        "`tag` must be initialized"
    );
    assert_eq!(RequiredField::Old.name(), "old");
    assert_eq!(RequiredField::New.name(), "new");
    assert_eq!(RequiredField::Id.name(), "id");
    assert_eq!(RequiredField::Url.name(), "url");
}

#[test]
fn a_copy_of_an_endpoint_asks_the_same() {
    let delete = Delete::builder()
        .url(Url::parse("http://pinboard.test/a?b=c").unwrap())
        .build()
        .unwrap();
    let copy = delete.clone();
    assert_eq!(copy.parameters().get(0), Some(("url", "http://pinboard.test/a?b=c")));
    assert_eq!(copy.endpoint(), delete.endpoint());
    assert_eq!(copy.method(), Method::Get);
    assert_eq!(Method::Post.name(), "POST");
    assert_eq!(Method::Get.name(), "GET");
}

#[test]
fn new_query_params_are_empty() {
    assert_eq!(QueryParams::default().len(), 0);
    assert_eq!(QueryParams::new().len(), 0);
    assert_eq!(QueryParams::new().get(0), None);
    let mut url = Url::parse("https://example.net/a").unwrap();
    QueryParams::default().add_to_url(&mut url);
    assert_eq!(url.query_pairs().count(), 0);
}

#[test]
fn dates_exist_as_the_calendar_has_them() {
    assert!(Date::from_ymd_opt(2000, 2, 29).is_some());
    assert!(Date::from_ymd_opt(1900, 2, 29).is_none());
    assert!(Date::from_ymd_opt(1900, 2, 28).is_some());
    assert!(Date::from_ymd_opt(-4, 2, 29).is_some());
    assert!(Date::from_ymd_opt(-1, 2, 29).is_none());
    assert!(Date::from_ymd_opt(0, 2, 29).is_some());
    assert!(Date::from_ymd_opt(-100, 2, 29).is_none());
    assert!(Date::from_ymd_opt(-400, 2, 29).is_some());
    for (month, days) in [
        (1, 31),
        (2, 28),
        (3, 31),
        (4, 30),
        (5, 31),
        (6, 30),
        (7, 31),
        (8, 31),
        (9, 30),
        (10, 31),
        (11, 30),
        (12, 31),
    ] {
        assert!(Date::from_ymd_opt(2023, month, days).is_some());
        assert!(Date::from_ymd_opt(2023, month, days + 1).is_none());
        assert!(Date::from_ymd_opt(2023, month, 0).is_none());
    }
    assert!(Date::from_ymd_opt(-262143, 1, 1).is_some());
    assert!(Date::from_ymd_opt(-262144, 12, 31).is_none());
    assert!(Date::from_ymd_opt(262142, 12, 31).is_some());
    assert!(Date::from_ymd_opt(262143, 1, 1).is_none());
    assert!(Date::from_ymd_opt(i32::MAX, 1, 1).is_none());
    assert!(Date::from_ymd_opt(i32::MIN, 1, 1).is_none());
    assert!(Date::from_ymd_opt(2023, u32::MAX, 1).is_none());
    assert!(Date::from_ymd_opt(2023, 1, u32::MAX).is_none());
}

#[test]
fn four_digit_years_are_padded_and_others_signed() {
    assert_eq!(Date::from_ymd_opt(0, 1, 1).unwrap().as_value(), "0000-01-01");
    assert_eq!(Date::from_ymd_opt(7, 12, 9).unwrap().as_value(), "0007-12-09");
    assert_eq!(Date::from_ymd_opt(999, 10, 31).unwrap().as_value(), "0999-10-31");
    assert_eq!(Date::from_ymd_opt(9999, 12, 31).unwrap().as_value(), "9999-12-31");
    assert_eq!(Date::from_ymd_opt(10000, 1, 1).unwrap().as_value(), "+10000-01-01");
    assert_eq!(Date::from_ymd_opt(-1, 1, 1).unwrap().as_value(), "-0001-01-01");
    assert_eq!(Date::from_ymd_opt(-45, 3, 15).unwrap().as_value(), "-0045-03-15");
    assert_eq!(Date::from_ymd_opt(-999, 3, 15).unwrap().as_value(), "-0999-03-15");
    assert_eq!(Date::from_ymd_opt(-1000, 3, 15).unwrap().as_value(), "-1000-03-15");
    assert_eq!(Date::from_ymd_opt(-9999, 3, 15).unwrap().as_value(), "-9999-03-15");
    assert_eq!(Date::from_ymd_opt(-10000, 3, 15).unwrap().as_value(), "-10000-03-15");
    assert_eq!(
        Date::from_ymd_opt(-262143, 1, 1).unwrap().as_value(),
        "-262143-01-01"
    );
    assert_eq!(
        Date::from_ymd_opt(262142, 12, 31).unwrap().as_value(),
        "+262142-12-31"
    );
}

#[test]
fn ordinary_urls_have_room_for_ordinary_pairs() {
    let url = Url::parse("https://example.net/").unwrap();
    assert!(pair_fits(&url, "name", "value"));
    assert!(pair_fits(&url, "", ""));
    let mut params = QueryParams::new();
    params.push("a", "1").push("b", "\u{00C9}t\u{00E9}");
    assert!(params.fits(&url));
    assert!(QueryParams::new().fits(&url));
    assert_eq!(octet_count(""), 0);
    assert_eq!(octet_count("abc"), 3);
    assert_eq!(octet_count("\u{00C9}t\u{00E9}"), 5);
    assert_eq!(octet_count("\u{1F600}"), 4);
}
