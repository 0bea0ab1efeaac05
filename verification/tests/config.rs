//! Configuration from the environment and from code.

use animus_subject_linear::config::{
    overrides_from_document, parse_status_overrides, parse_subject_status, EnvVars, LinearConfig,
    DEFAULT_LINEAR_API_URL,
};
use animus_subject_linear::json::Json;
use animus_subject_linear::subject::SubjectStatus;

#[test]
fn new_builds_config_without_env() {
    let cfg = LinearConfig::new("tok", "http://localhost:1234/graphql", Some("ENG".into()));
    assert_eq!(cfg.api_token.as_deref(), Some("tok"));
    assert_eq!(cfg.api_url, "http://localhost:1234/graphql");
    assert_eq!(cfg.team_id.as_deref(), Some("ENG"));
}

#[test]
fn without_token_yields_none() {
    let cfg = LinearConfig::without_token("http://localhost:1234/graphql", None);
    assert!(cfg.api_token.is_none());
    assert_eq!(cfg.api_url, "http://localhost:1234/graphql");
    assert!(cfg.team_id.is_none());
}

fn no_vars() -> EnvVars {
    EnvVars {
        api_token: None,
        api_url: None,
        team_id: None,
        project_id: None,
        status_map: None,
    }
}

#[test]
fn from_env_succeeds_without_token() {
    let cfg = LinearConfig::from_env(no_vars());
    assert!(
        cfg.api_token.is_none(),
        "missing token should map to None, not panic"
    );
    assert_eq!(cfg.api_url, DEFAULT_LINEAR_API_URL);
    assert!(cfg.team_id.is_none());
    assert!(cfg.status_overrides.is_empty());
}

#[test]
fn from_env_takes_what_is_set() {
    let cfg = LinearConfig::from_env(EnvVars {
        api_token: Some("tok".to_string()),
        api_url: Some("http://localhost:1234/graphql".to_string()),
        team_id: Some("ENG".to_string()),
        project_id: Some("project-1".to_string()),
        status_map: Some(r#"{"Spec":"Blocked"}"#.to_string()),
    });
    assert_eq!(cfg.api_token.as_deref(), Some("tok"));
    assert_eq!(cfg.api_url, "http://localhost:1234/graphql");
    assert_eq!(cfg.team_id.as_deref(), Some("ENG"));
    assert_eq!(cfg.project_id.as_deref(), Some("project-1"));
    assert_eq!(
        cfg.status_overrides.get("Spec"),
        Some(&SubjectStatus::Blocked)
    );
}

#[test]
fn from_env_counts_empty_values_as_not_set() {
    let cfg = LinearConfig::from_env(EnvVars {
        api_token: Some(String::new()),
        api_url: Some(String::new()),
        team_id: Some(String::new()),
        project_id: Some(String::new()),
        status_map: Some(String::new()),
    });
    assert!(cfg.api_token.is_none());
    assert_eq!(cfg.api_url, "", "an endpoint is taken as it is");
    assert!(cfg.team_id.is_none());
    assert!(cfg.project_id.is_none());
    assert!(cfg.status_overrides.is_empty());
}

#[test]
fn parse_status_overrides_handles_valid_json() {
    let raw = r#"{"Spec":"Ready","Implementation":"InProgress","Shipped":"Done"}"#;
    let parsed = parse_status_overrides(raw);
    assert_eq!(parsed.len(), 3);
    assert_eq!(parsed.get("Spec"), Some(&SubjectStatus::Ready));
    assert_eq!(
        parsed.get("Implementation"),
        Some(&SubjectStatus::InProgress)
    );
    assert_eq!(parsed.get("Shipped"), Some(&SubjectStatus::Done));
}

#[test]
fn parse_status_overrides_ignores_unknown_values() {
    let raw = r#"{"Spec":"NotAStatus","Implementation":"InProgress"}"#;
    let parsed = parse_status_overrides(raw);
    assert_eq!(parsed.len(), 1);
    assert_eq!(
        parsed.get("Implementation"),
        Some(&SubjectStatus::InProgress)
    );
}

#[test]
fn parse_status_overrides_returns_empty_for_malformed_json() {
    assert!(parse_status_overrides("not json at all").is_empty());
    assert!(parse_status_overrides("[1,2,3]").is_empty());
}

#[test]
fn overrides_that_are_no_strings_are_skipped() {
    let document = Json::parse(r#"{"A":1,"B":null,"C":["Done"],"D":"done"}"#);
    let parsed = overrides_from_document(document);
    assert_eq!(parsed.len(), 1);
    assert_eq!(parsed.get("D"), Some(&SubjectStatus::Done));
    assert!(overrides_from_document(None).is_empty());
}

#[test]
fn last_of_several_overrides_for_a_name_counts() {
    let parsed = parse_status_overrides(r#"{"A":"Done","B":"Ready","A":"Blocked"}"#);
    assert_eq!(parsed.len(), 2);
    assert_eq!(parsed.get("A"), Some(&SubjectStatus::Blocked));
}

#[test]
fn statuses_are_read_in_every_spelling() {
    for (word, status) in [
        ("Ready", SubjectStatus::Ready),
        ("ready", SubjectStatus::Ready),
        ("InProgress", SubjectStatus::InProgress),
        ("in-progress", SubjectStatus::InProgress),
        ("in_progress", SubjectStatus::InProgress),
        ("Blocked", SubjectStatus::Blocked),
        ("blocked", SubjectStatus::Blocked),
        ("Done", SubjectStatus::Done),
        ("done", SubjectStatus::Done),
        ("Cancelled", SubjectStatus::Cancelled),
        ("cancelled", SubjectStatus::Cancelled),
        ("Canceled", SubjectStatus::Cancelled),
        ("canceled", SubjectStatus::Cancelled),
    ] {
        assert_eq!(parse_subject_status(word), Some(status), "{word}");
    }
    assert_eq!(parse_subject_status("READY"), None);
    assert_eq!(parse_subject_status(""), None);
}
