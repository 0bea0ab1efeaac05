//! Priorities, ids, timestamps, errors, documents and text.

use animus_subject_linear::client::{GraphQlError, GraphQlResponse, HttpStatus};
use animus_subject_linear::issue::{
    issue_to_subject_at, linear_priority_to_animus, map_graphql_err, native_id, priority_bucket_to_linear,
};
use animus_subject_linear::json::Json;
use animus_subject_linear::status_map::StatusMap;
use animus_subject_linear::string_map::StringMap;
use animus_subject_linear::subject::{BackendError, SubjectId, SubjectStatus};
use animus_subject_linear::text::{contains, is_white_space, join, lowered_chars, strip_prefix, trim};
use animus_subject_linear::timestamp::Timestamp;

#[test]
fn priority_buckets_map_to_linear_ints() {
    assert_eq!(priority_bucket_to_linear("p0"), Some(1));
    assert_eq!(priority_bucket_to_linear("p1"), Some(2));
    assert_eq!(priority_bucket_to_linear("p2"), Some(3));
    assert_eq!(priority_bucket_to_linear("p3"), Some(4));
    assert_eq!(priority_bucket_to_linear("urgent"), None);
}

#[test]
fn linear_priority_maps_to_animus_scale() {
    assert_eq!(linear_priority_to_animus(0), Some(0)); // None   -> none
    assert_eq!(linear_priority_to_animus(1), Some(4)); // Urgent -> critical
    assert_eq!(linear_priority_to_animus(2), Some(3)); // High   -> high
    assert_eq!(linear_priority_to_animus(3), Some(2)); // Normal -> medium
    assert_eq!(linear_priority_to_animus(4), Some(1)); // Low    -> low
    assert_eq!(linear_priority_to_animus(5), None); // out of range
}

#[test]
fn priority_buckets_may_be_upper_case() {
    assert_eq!(priority_bucket_to_linear("P0"), Some(1));
    assert_eq!(priority_bucket_to_linear("P1"), Some(2));
    assert_eq!(priority_bucket_to_linear("P2"), Some(3));
    assert_eq!(priority_bucket_to_linear("P3"), Some(4));
    assert_eq!(priority_bucket_to_linear("p4"), None);
    assert_eq!(priority_bucket_to_linear(""), None);
}

#[test]
fn native_ids_lose_the_prefix() {
    assert_eq!(
        native_id(&SubjectId::new("linear:ENG-1")).expect("linear id"),
        "ENG-1"
    );
    assert_eq!(native_id(&SubjectId::new("linear:")).expect("linear id"), "");
    assert_eq!(
        native_id(&SubjectId::new("linear:linear:x")).expect("linear id"),
        "linear:x"
    );
    assert!(native_id(&SubjectId::new("Linear:ENG-1")).is_err());
    assert!(native_id(&SubjectId::new("linear")).is_err());
}

#[test]
fn messages_tell_the_kind_of_an_error() {
    assert!(matches!(
        map_graphql_err("Request UNAUTHORIZED".to_string()),
        BackendError::PermissionDenied(m) if m == "Request UNAUTHORIZED"
    ));
    assert!(matches!(
        map_graphql_err("Authentication: entity not found".to_string()),
        BackendError::PermissionDenied(_)
    ));
    assert!(matches!(
        map_graphql_err("Entity Not Found".to_string()),
        BackendError::NotFound(m) if m == "Entity Not Found"
    ));
    assert!(matches!(
        map_graphql_err("notfound".to_string()),
        BackendError::Unavailable(m) if m == "notfound"
    ));
}

fn response(status: u16, data: Option<&str>, errors: &[&str]) -> GraphQlResponse {
    GraphQlResponse {
        status: HttpStatus::new(status).expect("three digits"),
        data: data.and_then(Json::parse),
        errors: errors
            .iter()
            .map(|m| GraphQlError {
                message: m.to_string(),
                extensions: None,
            })
            .collect(),
    }
}

#[test]
fn data_needs_a_success_without_errors() {
    let data = response(200, Some("{\"a\":1}"), &[]).into_data();
    assert_eq!(data.expect("data").to_text(), "{\"a\":1}");
    assert_eq!(
        response(200, Some("{}"), &["one", "two"])
            .into_data()
            .expect_err("errors win"),
        "linear graphql errors: one; two"
    );
    assert_eq!(
        response(500, Some("[1]"), &[])
            .into_data()
            .expect_err("the status counts"),
        "linear http 500 Internal Server Error: Some(Array [Number(1)])"
    );
    assert_eq!(
        response(299, None, &[]).into_data().expect_err("no data"),
        "linear response missing `data` field"
    );
}

#[test]
fn http_statuses_have_three_digits() {
    assert!(HttpStatus::new(99).is_none());
    assert!(HttpStatus::new(1000).is_none());
    assert!(HttpStatus::new(200).unwrap().is_success());
    assert!(!HttpStatus::new(300).unwrap().is_success());
    assert!(!HttpStatus::new(199).unwrap().is_success());
    assert_eq!(HttpStatus::new(404).unwrap().to_text(), "404 Not Found");
}

#[test]
fn timestamps_are_read_as_utc() {
    let t = Timestamp::parse("2026-01-01T12:30:00.25+02:30").expect("RFC 3339");
    assert_eq!(t.secs(), 1_767_261_600);
    assert_eq!(t.nanos(), 250_000_000);
    assert_eq!(t.to_rfc3339(), "2026-01-01T10:00:00.250+00:00");
    assert!(Timestamp::parse("2026-01-01").is_err());
}

#[test]
fn leap_seconds_follow_the_last_second_of_a_minute() {
    let t = Timestamp::parse("2016-12-31T23:59:60Z").expect("a leap second");
    assert_eq!(t.nanos(), 1_000_000_000);
    assert_eq!(t.to_rfc3339(), "2016-12-31T23:59:60+00:00");
    assert!(Timestamp::new(t.secs(), t.nanos()).is_some());
    assert!(Timestamp::new(t.secs() + 1, t.nanos()).is_none());
    assert!(Timestamp::new(0, 2_000_000_000).is_none());
}

#[test]
fn timestamps_reach_as_far_as_they_can() {
    let first = Timestamp::new(-8_334_601_228_800, 0).expect("the first instant");
    assert_eq!(first.to_rfc3339(), "-262143-01-01T00:00:00+00:00");
    let last = Timestamp::new(8_210_266_876_799, 999_999_999).expect("the last instant");
    assert_eq!(last.to_rfc3339(), "+262142-12-31T23:59:59.999999999+00:00");
    let leap = Timestamp::new(8_210_266_876_799, 1_999_999_999).expect("the last leap second");
    assert_eq!(leap.to_rfc3339(), "+262142-12-31T23:59:60.999999999+00:00");
    assert!(Timestamp::new(-8_334_601_228_801, 0).is_none());
    assert!(Timestamp::new(8_210_266_876_800, 0).is_none());
}

#[test]
fn documents_keep_what_they_hold() {
    let text = r#"{"a":[null,true,-1,1.5,18446744073709551615,"x"],"b":{"c":{}}}"#;
    let j = Json::parse(text).expect("JSON");
    assert_eq!(j.to_text(), text);
    assert_eq!(j.clone().to_text(), text);
    assert_eq!(Json::from_value(j.to_value()).to_text(), text);
    assert_eq!(
        Json::parse_bytes(text.as_bytes()).expect("JSON").to_text(),
        text
    );
    let items = j.get("a").and_then(|a| a.as_array()).expect("an array");
    assert!(items[0].is_null());
    assert_eq!(items[1].as_bool(), Some(true));
    assert_eq!(items[2].as_u64(), None);
    assert_eq!(items[3].as_u64(), None);
    assert_eq!(items[4].as_u64(), Some(u64::MAX));
    assert_eq!(items[5].as_str(), Some("x"));
    assert!(j.get("c").is_none());
    assert!(Json::parse("{").is_none());
    assert!(Json::parse_bytes(b"\xff").is_none());
}

#[test]
fn documents_are_written_with_sorted_keys() {
    let j = Json::parse(r#"{"b":1,"a":2,"b":3}"#).expect("JSON");
    assert_eq!(j.to_text(), r#"{"a":2,"b":3}"#);
    assert_eq!(j.to_debug_text(), r#"Object {"a": Number(2), "b": Number(3)}"#);
    assert_eq!(
        Json::object2("b", Json::from_u64(7), "a", Json::text("\"")).to_text(),
        r#"{"a":"\"","b":7}"#
    );
}

#[test]
fn last_of_several_members_with_a_key_is_written() {
    let member = |key: &str, value: bool| (key.to_string(), Json::Bool(value));
    let j = Json::Object(StringMap {
        entries: vec![member("a", false), member("b", true), member("a", true)],
    });
    assert_eq!(j.to_text(), r#"{"a":true,"b":true}"#);
    assert_eq!(j.get("a").and_then(|a| a.as_bool()), Some(true));
}

#[test]
fn maps_keep_the_last_value_of_a_key() {
    let mut map = StringMap::new();
    assert!(map.is_empty());
    map.insert("a".to_string(), 1);
    map.insert("b".to_string(), 2);
    map.insert("a".to_string(), 3);
    assert_eq!(map.len(), 2);
    assert_eq!(map.get("a"), Some(&3));
    assert_eq!(map.get("b"), Some(&2));
    assert_eq!(map.get("c"), None);
    assert_eq!(map.entries[0].0, "a");
}

#[test]
fn trim_takes_unicode_white_space_off() {
    for text in ["", " ", "\u{a0}x\u{3000}", " \t a b \r\n", "\u{200b}x", "x\u{85}"] {
        assert_eq!(trim(text), text.trim(), "{text:?}");
    }
    for n in 0..0x3100u32 {
        if let Some(c) = char::from_u32(n) {
            assert_eq!(is_white_space(c), c.is_whitespace(), "{n:#x}");
        }
    }
}

#[test]
fn text_helpers_agree_with_std() {
    assert_eq!(strip_prefix("linear:A", "linear:").as_deref(), Some("A"));
    assert_eq!(strip_prefix("line", "linear:"), None);
    assert_eq!(strip_prefix("\u{e9}a", "\u{e9}").as_deref(), Some("a"));
    let lowered = lowered_chars("ABZ az[\u{c9}");
    assert_eq!(lowered, "abz az[\u{c9}".chars().collect::<Vec<char>>());
    assert!(contains(&lowered, "z az"));
    assert!(contains(&lowered, ""));
    assert!(!contains(&lowered, "zz"));
    assert_eq!(join(&Vec::new(), "; "), "");
    assert_eq!(join(&vec!["a".to_string()], "; "), "a");
    assert_eq!(join(&vec!["a".to_string(), "b".to_string()], "; "), "a; b");
}

#[test]
fn subjects_carry_the_instants_that_they_are_given() {
    let created = Timestamp::new(5, 6).expect("representable");
    let updated = Timestamp::new(7, 8).expect("representable");
    let map = StatusMap::default();
    let issue = Json::parse(
        r#"{"identifier":"ENG-7","createdAt":"ignored","priority":3,
            "state":{"id":"s","name":"Doing","type":"started"}}"#,
    )
    .expect("JSON");
    let subject = issue_to_subject_at(&issue, &map, created, updated).expect("a subject");
    assert_eq!(subject.id.as_str(), "linear:ENG-7");
    assert_eq!(subject.created_at, created);
    assert_eq!(subject.updated_at, updated);
    assert_eq!(subject.status, SubjectStatus::InProgress);
    assert_eq!(subject.priority, Some(2));
    assert_eq!(subject.native_status.as_deref(), Some("Doing"));
    assert_eq!(subject.title, "");
    match issue_to_subject_at(&Json::Null, &map, created, updated) {
        Err(BackendError::Other(m)) => {
            assert_eq!(m, "linear issue node is missing `identifier`: null")
        }
        other => panic!("expected an error, got {other:?}"),
    }
}
