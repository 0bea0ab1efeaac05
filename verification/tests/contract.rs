//! Calls on the backend from end to end, against a Linear that answers each
//! operation with a fixed reply.

use animus_subject_linear::backend::{
    CreateRequest, LinearBackend, Pending, Reply, Step, ISSUE_FIELDS,
};
use animus_subject_linear::client::{
    read_reply, ClientError, GraphQlError, GraphQlRequest, GraphQlResponse, HttpPost, HttpStatus,
    LinearClient, LinearWorkflowState, Position,
};
use animus_subject_linear::config::LinearConfig;
use animus_subject_linear::json::Json;
use animus_subject_linear::string_map::StringMap;
use animus_subject_linear::subject::{
    BackendError, HealthCheckResult, HealthStatus, Subject, SubjectFilter, SubjectId, SubjectList,
    SubjectPatch, SubjectStatus,
};
use animus_subject_linear::timestamp::Timestamp;

const URL: &str = "http://localhost:1234/graphql";

const TEAM_STATES_DEFAULT: &str = r#"{ "data": { "team": { "states": { "nodes": [
    { "id": "state-backlog", "name": "Backlog", "type": "backlog", "position": 0.0 },
    { "id": "state-todo", "name": "Todo", "type": "unstarted", "position": 1.0 },
    { "id": "state-progress", "name": "In Progress", "type": "started", "position": 2.0 },
    { "id": "state-review", "name": "In Review", "type": "started", "position": 2.5 },
    { "id": "state-done", "name": "Done", "type": "completed", "position": 3.0 },
    { "id": "state-cancelled", "name": "Cancelled", "type": "cancelled", "position": 4.0 }
] } } } }"#;

const TEAM_STATES_CUSTOM: &str = r#"{ "data": { "team": { "states": { "nodes": [
    { "id": "uuid-spec", "name": "Spec", "type": "backlog", "position": 1.0 },
    { "id": "uuid-impl", "name": "Implementation", "type": "started", "position": 2.0 },
    { "id": "uuid-ship", "name": "Shipped", "type": "completed", "position": 3.0 }
] } } } }"#;

const TEAM_STATES_AMBIGUOUS: &str = r#"{ "data": { "team": { "states": { "nodes": [
    { "id": "uuid-backlog", "name": "Backlog", "type": "backlog", "position": 5.0 },
    { "id": "uuid-todo", "name": "Todo", "type": "unstarted", "position": 1.0 },
    { "id": "uuid-prog", "name": "In Progress", "type": "started", "position": 2.0 }
] } } } }"#;

const TEAM_STATES_WITHOUT_CANCELLED: &str = r#"{ "data": { "team": { "states": { "nodes": [
    { "id": "uuid-todo", "name": "Todo", "type": "unstarted", "position": 1.0 },
    { "id": "uuid-prog", "name": "In Progress", "type": "started", "position": 2.0 },
    { "id": "uuid-done", "name": "Done", "type": "completed", "position": 3.0 }
] } } } }"#;

const LIST_THREE_ISSUES: &str = r#"{ "data": { "issues": {
    "pageInfo": { "hasNextPage": false, "endCursor": null },
    "nodes": [
        {
            "id": "11111111-1111-4111-8111-111111111111",
            "identifier": "ENG-1",
            "title": "Investigate flaky test",
            "description": "The webhook integration test fails ~10% of the time.",
            "priority": 2,
            "url": "https://linear.app/launchapp/issue/ENG-1",
            "createdAt": "2026-01-01T10:00:00.000Z",
            "updatedAt": "2026-01-02T10:00:00.500Z",
            "state": { "id": "state-todo", "name": "Todo", "type": "unstarted" },
            "assignee": { "id": "user-1", "name": "Alice", "email": "alice@example.com" },
            "labels": { "nodes": [{ "name": "backend" }, { "name": "testing" }] },
            "parent": null,
            "children": { "nodes": [] }
        },
        {
            "id": "22222222-2222-4222-8222-222222222222",
            "identifier": "ENG-2",
            "title": "Ship it",
            "description": null,
            "priority": 0,
            "url": "https://linear.app/launchapp/issue/ENG-2",
            "createdAt": "2026-01-01T10:00:00.000Z",
            "updatedAt": "2026-01-02T10:00:00.000Z",
            "state": { "id": "state-progress", "name": "In Progress", "type": "started" },
            "assignee": null,
            "labels": { "nodes": [] },
            "parent": { "identifier": "ENG-100" },
            "children": { "nodes": [] }
        },
        {
            "id": "33333333-3333-4333-8333-333333333333",
            "identifier": "ENG-3",
            "title": "Umbrella",
            "description": "",
            "priority": 7,
            "url": null,
            "createdAt": "2026-01-01T10:00:00.000Z",
            "updatedAt": "2026-01-02T10:00:00.000Z",
            "state": { "id": "state-done", "name": "Done", "type": "completed" },
            "assignee": { "id": "user-2", "name": "Bob", "email": null },
            "labels": { "nodes": [] },
            "parent": null,
            "children": { "nodes": [{ "identifier": "ENG-4" }, { "identifier": "ENG-5" }] }
        }
    ]
} } }"#;

const GET_ONE_ISSUE: &str = r#"{ "data": { "issue": {
    "id": "11111111-1111-4111-8111-111111111111",
    "identifier": "ENG-1",
    "title": "Investigate flaky test",
    "description": "The webhook integration test fails ~10% of the time.",
    "priority": 2,
    "url": "https://linear.app/launchapp/issue/ENG-1",
    "createdAt": "2026-01-01T10:00:00.000Z",
    "updatedAt": "2026-01-02T10:00:00.000Z",
    "state": { "id": "state-todo", "name": "Todo", "type": "unstarted" },
    "assignee": { "id": "user-1", "name": "Alice", "email": "alice@example.com" },
    "labels": { "nodes": [{ "name": "backend" }] },
    "parent": null,
    "children": { "nodes": [] }
} } }"#;

const UPDATE_ISSUE_OK: &str = r#"{ "data": { "issueUpdate": { "success": true, "issue": {
    "id": "11111111-1111-4111-8111-111111111111",
    "identifier": "ENG-1",
    "title": "Investigate flaky test",
    "description": "The webhook integration test fails ~10% of the time.",
    "priority": 2,
    "url": "https://linear.app/launchapp/issue/ENG-1",
    "createdAt": "2026-01-01T10:00:00.000Z",
    "updatedAt": "2026-01-03T10:00:00.000Z",
    "state": { "id": "state-progress", "name": "In Progress", "type": "started" },
    "assignee": { "id": "user-2", "name": "Bob", "email": "bob@example.com" },
    "labels": { "nodes": [{ "name": "backend" }, { "name": "wip" }] },
    "parent": null,
    "children": { "nodes": [] }
} } } }"#;

const CREATE_ISSUE_OK: &str = r#"{ "data": { "issueCreate": { "success": true, "issue": {
    "id": "44444444-4444-4444-8444-444444444444",
    "identifier": "ENG-9",
    "title": "New thing",
    "description": "Do it.",
    "priority": 1,
    "url": "https://linear.app/launchapp/issue/ENG-9",
    "createdAt": "2026-01-04T10:00:00.000Z",
    "updatedAt": "2026-01-04T10:00:00.000Z",
    "state": { "id": "uuid-spec", "name": "Spec", "type": "backlog" },
    "assignee": null,
    "labels": { "nodes": [] },
    "parent": null,
    "children": { "nodes": [] }
} } } }"#;

const COMMENT_CREATE_OK: &str =
    r#"{ "data": { "commentCreate": { "success": true, "comment": { "id": "comment-1" } } } }"#;

const VIEWER_OK: &str = r#"{ "data": { "viewer": { "id": "user-1", "name": "Alice" } } }"#;

const VIEWER_UNAUTHORIZED: &str =
    r#"{ "errors": [{ "message": "Authentication required, not authenticated" }] }"#;

/// A Linear that answers each operation with a status and a body.
struct Linear {
    answers: Vec<(&'static str, u16, String)>,
    /// The operations and variables that were sent.
    sent: Vec<(&'static str, Json)>,
}

impl Linear {
    fn new(states: &str) -> Linear {
        Linear {
            answers: vec![("query AnimusTeamStates", 200, states.to_string())],
            sent: Vec::new(),
        }
    }

    fn answer(mut self, operation: &'static str, status: u16, body: &str) -> Linear {
        self.answers.push((operation, status, body.to_string()));
        self
    }

    fn send(
        &mut self,
        backend: &LinearBackend,
        request: GraphQlRequest,
    ) -> Result<GraphQlResponse, ClientError> {
        let post = backend.client().execute(&request.query, request.variables);
        assert_eq!(post.url, URL);
        assert_eq!(header(&post, "authorization"), vec!["test-token"]);
        assert_eq!(header(&post, "content-type"), vec!["application/json"]);
        let body = Json::parse(&post.body).expect("the body is JSON");
        let query = text_at(&body, &["query"]).expect("the body holds the query");
        for (operation, status, reply) in &self.answers {
            if query.contains(operation) {
                self.sent.push((
                    operation,
                    at(&body, &["variables"])
                        .expect("the body holds variables")
                        .clone(),
                ));
                let status = HttpStatus::new(*status).expect("a status of three digits");
                let reply = read_reply(reply.as_bytes())?;
                let errors = decode_errors(&reply);
                return Ok(GraphQlResponse::from_reply(status, &reply, errors));
            }
        }
        panic!("no answer to {query}");
    }

    fn run(&mut self, backend: &mut LinearBackend, step: Step) -> Result<Reply, BackendError> {
        let mut step = step;
        for _ in 0..8 {
            step = match step {
                Step::Send(request, pending) => {
                    let outcome = self.send(backend, request);
                    backend.resume(pending, outcome)
                }
                Step::Decode(nodes, call) => {
                    backend.resume_with_states(call, decode_states(&nodes))
                }
                Step::Done(outcome) => return outcome,
            };
        }
        panic!("the call does not end");
    }

    fn count(&self, operation: &str) -> usize {
        self.sent.iter().filter(|s| s.0 == operation).count()
    }

    /// The variables of the only request with this operation.
    fn variables(&self, operation: &str) -> &Json {
        assert_eq!(self.count(operation), 1, "{operation}");
        &self.sent.iter().find(|s| s.0 == operation).unwrap().1
    }
}

/// The values of a header.
fn header<'a>(post: &'a HttpPost, name: &str) -> Vec<&'a str> {
    post.headers
        .iter()
        .filter(|h| h.0 == name)
        .map(|h| h.1.as_str())
        .collect()
}

fn at<'a>(j: &'a Json, path: &[&str]) -> Option<&'a Json> {
    let mut j = j;
    for key in path {
        j = j.get(key)?;
    }
    Some(j)
}

fn text_at(j: &Json, path: &[&str]) -> Option<String> {
    at(j, path).and_then(|j| j.as_str()).map(str::to_string)
}

fn decode_errors(body: &Json) -> Option<Vec<GraphQlError>> {
    let mut errors = Vec::new();
    for error in body.get("errors")?.as_array()? {
        errors.push(GraphQlError {
            message: text_at(error, &["message"])?,
            extensions: error.get("extensions").cloned(),
        });
    }
    Some(errors)
}

fn decode_states(nodes: &Json) -> Option<Vec<LinearWorkflowState>> {
    let mut states = Vec::new();
    for node in nodes.as_array()? {
        states.push(LinearWorkflowState {
            id: text_at(node, &["id"])?,
            name: text_at(node, &["name"])?,
            state_type: text_at(node, &["type"])?,
            position: Position::from_bits(node.get("position")?.to_value().as_f64()?.to_bits()),
        });
    }
    Some(states)
}

fn backend_against() -> LinearBackend {
    let config = LinearConfig::new("test-token", URL, Some("ENG".to_string()));
    LinearBackend::new(config).expect("backend should build")
}

fn backend_without_token() -> LinearBackend {
    let config = LinearConfig::without_token(URL, Some("ENG".to_string()));
    LinearBackend::new(config).expect("token-less backend should still build")
}

fn backend_without_team() -> LinearBackend {
    LinearBackend::new(LinearConfig::new("test-token", URL, None)).expect("backend should build")
}

fn backend_with_overrides(overrides: StringMap<SubjectStatus>) -> LinearBackend {
    let config = LinearConfig::new("test-token", URL, Some("ENG".to_string()))
        .with_status_overrides(overrides);
    LinearBackend::new(config).expect("backend should build")
}

fn page(outcome: Result<Reply, BackendError>) -> SubjectList {
    match outcome {
        Ok(Reply::Page(page)) => page,
        other => panic!("expected a page, got {other:?}"),
    }
}

fn subject(outcome: Result<Reply, BackendError>) -> Subject {
    match outcome {
        Ok(Reply::Subject(subject)) => subject,
        other => panic!("expected a subject, got {other:?}"),
    }
}

fn health(outcome: Result<Reply, BackendError>) -> HealthCheckResult {
    match outcome {
        Ok(Reply::Health(health)) => health,
        other => panic!("expected a verdict, got {other:?}"),
    }
}

fn done(step: Step) -> Result<Reply, BackendError> {
    match step {
        Step::Done(outcome) => outcome,
        other => panic!("expected the call to be over, got {other:?}"),
    }
}

fn create_request(title: &str) -> CreateRequest {
    CreateRequest {
        title: title.to_string(),
        body: None,
        status: None,
        priority: None,
        labels: Vec::new(),
        project_id: None,
        team_id: None,
    }
}

#[test]
fn list_returns_mapped_subjects() {
    let mut linear = Linear::new(TEAM_STATES_DEFAULT).answer(
        "query AnimusListIssues",
        200,
        LIST_THREE_ISSUES,
    );
    let mut backend = backend_against();
    let filter = SubjectFilter {
        status: vec![SubjectStatus::Ready, SubjectStatus::InProgress],
        limit: Some(50),
        ..Default::default()
    };
    let step = backend.list(filter);
    let page = page(linear.run(&mut backend, step));

    assert_eq!(page.subjects.len(), 3, "fixture has three issues");
    assert!(page.next_cursor.is_none(), "fixture says no more pages");

    let first = &page.subjects[0];
    assert_eq!(first.id.as_str(), "linear:ENG-1");
    assert_eq!(first.title, "Investigate flaky test");
    assert_eq!(first.status, SubjectStatus::Ready);
    assert_eq!(first.priority, Some(3));
    assert_eq!(first.assignee.as_deref(), Some("alice@example.com"));
    assert_eq!(
        first.labels,
        vec!["backend".to_string(), "testing".to_string()]
    );
    assert_eq!(
        first.url.as_deref(),
        Some("https://linear.app/launchapp/issue/ENG-1")
    );
    assert_eq!(
        first
            .custom
            .get("linear_state_type")
            .and_then(|v| v.as_str()),
        Some("unstarted")
    );

    let second = &page.subjects[1];
    assert_eq!(second.id.as_str(), "linear:ENG-2");
    assert_eq!(second.status, SubjectStatus::InProgress);
    assert_eq!(second.assignee, None);
    assert_eq!(
        second.parent.as_ref().map(|p| p.as_str().to_string()),
        Some("linear:ENG-100".to_string())
    );

    let third = &page.subjects[2];
    assert_eq!(third.status, SubjectStatus::Done);
    assert_eq!(third.children.len(), 2);
    assert_eq!(third.children[0].as_str(), "linear:ENG-4");
    assert!(
        third.description.is_none(),
        "empty description should map to None"
    );
}

#[test]
fn get_returns_subject_by_id() {
    let mut linear =
        Linear::new(TEAM_STATES_DEFAULT).answer("query AnimusGetIssue", 200, GET_ONE_ISSUE);
    let mut backend = backend_against();
    let step = backend.get(&SubjectId::new("linear:ENG-1"));
    let subject = subject(linear.run(&mut backend, step));

    assert_eq!(subject.id.as_str(), "linear:ENG-1");
    assert_eq!(subject.kind, "issue");
    assert_eq!(subject.title, "Investigate flaky test");
    assert_eq!(subject.status, SubjectStatus::Ready);
    assert_eq!(subject.native_status.as_deref(), Some("Todo"));
    assert_eq!(
        subject.description.as_deref(),
        Some("The webhook integration test fails ~10% of the time.")
    );
    assert_eq!(
        text_at(linear.variables("query AnimusGetIssue"), &["id"]).as_deref(),
        Some("ENG-1")
    );
}

#[test]
fn get_rejects_non_linear_id() {
    let backend = backend_against();
    match done(backend.get(&SubjectId::new("github:owner/repo#1"))) {
        Err(BackendError::InvalidRequest(msg)) => {
            assert!(
                msg.contains("linear:"),
                "error should mention prefix: {msg}"
            );
            assert_eq!(
                msg,
                "subject id \"github:owner/repo#1\" is not a linear id (expected \
                 `linear:<identifier>` prefix)"
            );
        }
        other => panic!("expected InvalidRequest, got {other:?}"),
    }
}

#[test]
fn update_translates_patch() {
    let mut linear = Linear::new(TEAM_STATES_DEFAULT).answer(
        "mutation AnimusUpdateIssue",
        200,
        UPDATE_ISSUE_OK,
    );
    let mut backend = backend_against();
    let patch = SubjectPatch {
        status: Some(SubjectStatus::InProgress),
        assignee: Some(Some("bob@example.com".to_string())),
        labels_add: vec!["wip".to_string()],
        labels_remove: vec!["needs-triage".to_string()],
        ..Default::default()
    };
    let step = backend.update(&SubjectId::new("linear:ENG-1"), patch);
    let updated = subject(linear.run(&mut backend, step));

    assert_eq!(updated.status, SubjectStatus::InProgress);
    assert_eq!(updated.assignee.as_deref(), Some("bob@example.com"));
    assert!(updated.labels.contains(&"wip".to_string()));

    let variables = linear.variables("mutation AnimusUpdateIssue");
    assert_eq!(text_at(variables, &["id"]).as_deref(), Some("ENG-1"));
    let input = variables.get("input").expect("variables has input");
    assert!(
        input.get("stateName").is_none(),
        "update must not emit stateName: {input:?}"
    );
    assert_eq!(
        input.get("stateId").and_then(|v| v.as_str()),
        Some("state-progress"),
        "update must emit stateId from the team's workflow"
    );
    assert_eq!(
        input.get("assigneeId").and_then(|v| v.as_str()),
        Some("bob@example.com")
    );
    assert!(
        input.get("labelIds").is_none(),
        "update must not emit a replace-all labelIds payload: {input:?}"
    );
    assert_eq!(
        input
            .get("addedLabelIds")
            .and_then(|v| v.as_array())
            .map(|v| v.len()),
        Some(1)
    );
    assert_eq!(
        input
            .get("removedLabelIds")
            .and_then(|v| v.as_array())
            .map(|v| v.len()),
        Some(1)
    );
}

#[test]
fn update_clear_assignee_serializes_null() {
    let mut linear = Linear::new(TEAM_STATES_DEFAULT).answer(
        "mutation AnimusUpdateIssue",
        200,
        UPDATE_ISSUE_OK,
    );
    let mut backend = backend_against();
    let patch = SubjectPatch {
        assignee: Some(None),
        ..Default::default()
    };
    let step = backend.update(&SubjectId::new("linear:ENG-1"), patch);
    subject(linear.run(&mut backend, step));

    let input = at(linear.variables("mutation AnimusUpdateIssue"), &["input"]).expect("has input");
    assert!(
        input
            .get("assigneeId")
            .map(|v| v.is_null())
            .unwrap_or(false),
        "clear assignee should send null: {input:?}"
    );
}

#[test]
fn health_returns_healthy_on_200() {
    let mut linear =
        Linear::new(TEAM_STATES_DEFAULT).answer("query AnimusHealth", 200, VIEWER_OK);
    let mut backend = backend_against();
    let step = backend.health();
    let health = health(linear.run(&mut backend, step));
    assert_eq!(health.status, HealthStatus::Healthy);
    assert!(health.last_error.is_none());
    assert_eq!(linear.variables("query AnimusHealth").to_text(), "{}");
}

#[test]
fn health_returns_unhealthy_on_401() {
    let mut linear =
        Linear::new(TEAM_STATES_DEFAULT).answer("query AnimusHealth", 401, VIEWER_UNAUTHORIZED);
    let mut backend = backend_against();
    let step = backend.health();
    let health = health(linear.run(&mut backend, step));
    assert_eq!(health.status, HealthStatus::Unhealthy);
    let message = health.last_error.expect("unhealthy should carry a reason");
    assert!(
        message.to_ascii_lowercase().contains("auth"),
        "error should mention auth: {message}"
    );
}

#[test]
fn schema_returns_expected_shape() {
    let backend = backend_against();
    let schema = backend.schema();
    assert_eq!(schema.kinds, vec!["issue".to_string()]);
    assert!(schema.status_values.contains(&SubjectStatus::Ready));
    assert!(schema.status_values.contains(&SubjectStatus::Done));
    assert!(schema.supports_pagination);
    assert!(!schema.supports_watch, "v0.1.0 is polling-only");
    assert!(schema
        .native_status_values
        .iter()
        .any(|s| s == "In Progress"));
    assert!(schema.custom_fields.iter().any(|c| c.key == "priority"));
}

#[test]
fn list_propagates_graphql_errors() {
    let mut linear = Linear::new(TEAM_STATES_DEFAULT).answer(
        "query AnimusListIssues",
        200,
        r#"{ "errors": [{ "message": "Internal server error" }] }"#,
    );
    let mut backend = backend_against();
    let step = backend.list(SubjectFilter::default());
    match linear.run(&mut backend, step) {
        Err(BackendError::Unavailable(message)) => {
            assert_eq!(message, "linear graphql errors: Internal server error");
        }
        other => panic!("graphql error should bubble up, got {other:?}"),
    }
}

#[test]
fn list_returns_next_cursor_when_paginating() {
    let mut linear = Linear::new(TEAM_STATES_DEFAULT).answer(
        "query AnimusListIssues",
        200,
        r#"{ "data": { "issues": {
            "pageInfo": { "hasNextPage": true, "endCursor": "cursor-page-2" },
            "nodes": []
        } } }"#,
    );
    let mut backend = backend_against();
    let step = backend.list(SubjectFilter::default());
    let page = page(linear.run(&mut backend, step));
    assert_eq!(page.next_cursor.as_deref(), Some("cursor-page-2"));
    let _placeholder: Option<Subject> = page.subjects.into_iter().next();
}

#[test]
fn list_filters_by_native_status_state_name() {
    let mut linear = Linear::new(TEAM_STATES_DEFAULT).answer(
        "query AnimusListIssues",
        200,
        LIST_THREE_ISSUES,
    );
    let mut backend = backend_against();
    let filter = SubjectFilter {
        native_status: Some("In Review".to_string()),
        ..Default::default()
    };
    let step = backend.list(filter);
    page(linear.run(&mut backend, step));

    assert_eq!(
        text_at(
            linear.variables("query AnimusListIssues"),
            &["filter", "state", "name", "eq"]
        )
        .as_deref(),
        Some("In Review"),
        "native_status must translate to a state.name.eq filter"
    );
}

#[test]
fn backend_builds_without_token() {
    let backend = backend_without_token();
    let schema = backend.schema();
    assert_eq!(schema.kinds, vec!["issue".to_string()]);
}

#[test]
fn health_is_unhealthy_without_token() {
    let backend = backend_without_token();
    let health = health(done(backend.health()));
    assert_eq!(health.status, HealthStatus::Unhealthy);
    let msg = health.last_error.expect("missing-token should explain why");
    assert!(
        msg.contains("LINEAR_API_TOKEN"),
        "error should mention env var: {msg}"
    );
    assert!(msg.contains("unset"), "error should say `unset`: {msg}");
}

#[test]
fn list_get_update_require_token() {
    let backend = backend_without_token();
    let id = SubjectId::new("linear:ENG-1");
    for outcome in [
        done(backend.list(SubjectFilter::default())),
        done(backend.get(&id)),
        done(backend.update(&id, SubjectPatch::default())),
        done(backend.create(create_request("New thing"))),
    ] {
        match outcome {
            Err(BackendError::Other(e)) => {
                assert!(e.contains("LINEAR_API_TOKEN required"), "err: {e}")
            }
            other => panic!("expected BackendError::Other, got {other:?}"),
        }
    }
}

#[test]
fn fetches_workflow_states_on_first_call_and_caches() {
    let mut linear =
        Linear::new(TEAM_STATES_DEFAULT).answer("query AnimusGetIssue", 200, GET_ONE_ISSUE);
    let mut backend = backend_against();
    for _ in 0..2 {
        let step = backend.get(&SubjectId::new("linear:ENG-1"));
        subject(linear.run(&mut backend, step));
    }
    assert_eq!(linear.count("query AnimusTeamStates"), 1);
    assert_eq!(linear.count("query AnimusGetIssue"), 2);
    assert_eq!(
        text_at(linear.variables("query AnimusTeamStates"), &["teamId"]).as_deref(),
        Some("ENG")
    );
}

#[test]
fn applies_user_override_from_env() {
    let mut linear = Linear::new(TEAM_STATES_CUSTOM).answer(
        "mutation AnimusUpdateIssue",
        200,
        UPDATE_ISSUE_OK,
    );
    let mut overrides = StringMap::new();
    overrides.insert("Spec".to_string(), SubjectStatus::InProgress);
    let mut backend = backend_with_overrides(overrides);
    let patch = SubjectPatch {
        status: Some(SubjectStatus::InProgress),
        ..Default::default()
    };
    let step = backend.update(&SubjectId::new("linear:ENG-1"), patch);
    subject(linear.run(&mut backend, step));

    let state_id = text_at(
        linear.variables("mutation AnimusUpdateIssue"),
        &["input", "stateId"],
    )
    .expect("stateId in input");
    assert_eq!(
        state_id, "uuid-spec",
        "override-winning Spec (position 1) must be picked over Implementation (position 2)"
    );
}

#[test]
fn update_resolves_ambiguous_status_by_lowest_position() {
    let mut linear = Linear::new(TEAM_STATES_AMBIGUOUS).answer(
        "mutation AnimusUpdateIssue",
        200,
        UPDATE_ISSUE_OK,
    );
    let mut backend = backend_against();
    let patch = SubjectPatch {
        status: Some(SubjectStatus::Ready),
        ..Default::default()
    };
    let step = backend.update(&SubjectId::new("linear:ENG-1"), patch);
    subject(linear.run(&mut backend, step));

    let state_id = text_at(
        linear.variables("mutation AnimusUpdateIssue"),
        &["input", "stateId"],
    )
    .expect("stateId");
    assert_eq!(
        state_id, "uuid-todo",
        "lowest-position Ready candidate (Todo, pos 1.0) must win over Backlog (pos 5.0)"
    );
}

#[test]
fn update_errors_clearly_when_no_state_maps_to_target() {
    let mut linear = Linear::new(TEAM_STATES_WITHOUT_CANCELLED);
    let mut backend = backend_against();
    let patch = SubjectPatch {
        status: Some(SubjectStatus::Cancelled),
        ..Default::default()
    };
    let step = backend.update(&SubjectId::new("linear:ENG-1"), patch);
    match linear.run(&mut backend, step) {
        Err(BackendError::InvalidRequest(msg)) => {
            assert!(
                msg.contains("Cancelled"),
                "error should name the unmapped status: {msg}"
            );
            assert!(
                msg.contains("LINEAR_STATUS_MAP"),
                "error should mention the override env var: {msg}"
            );
            assert_eq!(
                msg,
                "no Linear workflow state maps to animus status Cancelled; configure \
                 LINEAR_STATUS_MAP env var to override"
            );
        }
        other => panic!("expected InvalidRequest, got {other:?}"),
    }
}

#[test]
fn update_sends_state_id_not_state_name() {
    let mut linear = Linear::new(TEAM_STATES_DEFAULT).answer(
        "mutation AnimusUpdateIssue",
        200,
        UPDATE_ISSUE_OK,
    );
    let mut backend = backend_against();
    let patch = SubjectPatch {
        status: Some(SubjectStatus::Done),
        ..Default::default()
    };
    let step = backend.update(&SubjectId::new("linear:ENG-1"), patch);
    subject(linear.run(&mut backend, step));

    let input = at(linear.variables("mutation AnimusUpdateIssue"), &["input"]).expect("has input");
    assert!(
        input.get("stateName").is_none(),
        "must NOT emit stateName: {input:?}"
    );
    let state_id = input
        .get("stateId")
        .and_then(|v| v.as_str())
        .expect("must emit stateId");
    assert_eq!(state_id, "state-done");
}

#[test]
fn update_with_comment_posts_via_comment_create_not_description() {
    let mut linear = Linear::new(TEAM_STATES_DEFAULT)
        .answer("mutation AnimusUpdateIssue", 200, UPDATE_ISSUE_OK)
        .answer("mutation AnimusCreateComment", 200, COMMENT_CREATE_OK);
    let mut backend = backend_against();
    let patch = SubjectPatch {
        status: Some(SubjectStatus::InProgress),
        comment: Some("draft ready for review".to_string()),
        ..Default::default()
    };
    let step = backend.update(&SubjectId::new("linear:ENG-1"), patch);
    subject(linear.run(&mut backend, step));

    let update_input = at(linear.variables("mutation AnimusUpdateIssue"), &["input"])
        .expect("issueUpdate variables has input");
    assert!(
        update_input.get("description").is_none(),
        "patch.comment must NOT be written to issue.description: {update_input:?}"
    );

    let comment_input = at(linear.variables("mutation AnimusCreateComment"), &["input"])
        .expect("commentCreate variables has input");
    assert_eq!(
        comment_input.get("issueId").and_then(|v| v.as_str()),
        Some("11111111-1111-4111-8111-111111111111"),
        "comment must address the Linear issue UUID, not the identifier: {comment_input:?}"
    );
    assert_eq!(
        comment_input.get("body").and_then(|v| v.as_str()),
        Some("draft ready for review")
    );
}

#[test]
fn update_with_only_comment_skips_issue_update_and_uses_get() {
    let mut linear = Linear::new(TEAM_STATES_DEFAULT)
        .answer("mutation AnimusUpdateIssue", 200, UPDATE_ISSUE_OK)
        .answer("query AnimusGetIssue", 200, GET_ONE_ISSUE)
        .answer("mutation AnimusCreateComment", 200, COMMENT_CREATE_OK);
    let mut backend = backend_against();
    let patch = SubjectPatch {
        comment: Some("workflow started".to_string()),
        ..Default::default()
    };
    let step = backend.update(&SubjectId::new("linear:ENG-1"), patch);
    subject(linear.run(&mut backend, step));

    assert_eq!(linear.count("mutation AnimusUpdateIssue"), 0);
    assert_eq!(linear.count("query AnimusGetIssue"), 1);
    assert_eq!(linear.count("mutation AnimusCreateComment"), 1);
    let issue_id = text_at(
        linear.variables("mutation AnimusCreateComment"),
        &["input", "issueId"],
    )
    .expect("issueId");
    assert_eq!(issue_id, "11111111-1111-4111-8111-111111111111");
}

#[test]
fn update_with_empty_comment_skips_comment_create() {
    let mut linear = Linear::new(TEAM_STATES_DEFAULT)
        .answer("mutation AnimusUpdateIssue", 200, UPDATE_ISSUE_OK)
        .answer("mutation AnimusCreateComment", 200, COMMENT_CREATE_OK);
    let mut backend = backend_against();
    let patch = SubjectPatch {
        status: Some(SubjectStatus::Done),
        comment: Some(String::new()),
        ..Default::default()
    };
    let step = backend.update(&SubjectId::new("linear:ENG-1"), patch);
    subject(linear.run(&mut backend, step));

    assert_eq!(linear.count("mutation AnimusUpdateIssue"), 1);
    assert_eq!(linear.count("mutation AnimusCreateComment"), 0);
}

#[test]
fn listed_subjects_carry_every_field() {
    let mut linear = Linear::new(TEAM_STATES_DEFAULT).answer(
        "query AnimusListIssues",
        200,
        LIST_THREE_ISSUES,
    );
    let mut backend = backend_against();
    let step = backend.list(SubjectFilter::default());
    let page = page(linear.run(&mut backend, step));

    let first = &page.subjects[0];
    assert_eq!(first.created_at.secs(), 1_767_261_600);
    assert_eq!(first.created_at.nanos(), 0);
    assert_eq!(first.updated_at.secs(), 1_767_348_000);
    assert_eq!(first.updated_at.nanos(), 500_000_000);
    assert_eq!(
        text_at(
            first.custom.get("linear_uuid").expect("has a uuid"),
            &[]
        )
        .as_deref(),
        Some("11111111-1111-4111-8111-111111111111")
    );
    assert_eq!(
        first.custom.get("linear_state_name").and_then(|v| v.as_str()),
        Some("Todo")
    );
    assert!(first.status_metadata.is_null());
    assert!(first.attachments.is_empty());

    assert_eq!(page.subjects[1].priority, Some(0), "none stays none");
    assert_eq!(page.subjects[1].description, None);
    assert_eq!(page.subjects[2].priority, None, "7 is no priority");
    assert_eq!(
        page.subjects[2].assignee.as_deref(),
        Some("Bob"),
        "the name stands in for a missing email"
    );
    assert_eq!(page.subjects[2].url, None);
}

#[test]
fn list_sends_the_whole_filter() {
    let mut linear = Linear::new(TEAM_STATES_DEFAULT).answer(
        "query AnimusListIssues",
        200,
        LIST_THREE_ISSUES,
    );
    let mut backend = backend_against();
    let filter = SubjectFilter {
        status: vec![SubjectStatus::InProgress, SubjectStatus::Done],
        native_status: Some("In Review".to_string()),
        assignee: vec!["bob@example.com".to_string()],
        labels_any: vec!["a".to_string(), "b".to_string()],
        labels_all: vec!["c".to_string()],
        updated_since: Timestamp::new(1_767_261_600, 500_000_000),
        limit: Some(1000),
        cursor: Some("cursor-page-2".to_string()),
    };
    let step = backend.list(filter);
    page(linear.run(&mut backend, step));

    assert_eq!(
        linear.variables("query AnimusListIssues").to_text(),
        concat_lines(&[
            r#"{"after":"cursor-page-2","filter":{"#,
            r#""assignee":{"or":[{"email":{"in":["bob@example.com"]}},"#,
            r#"{"name":{"in":["bob@example.com"]}}]},"#,
            r#""labels":{"and":[{"name":{"in":["a","b"]}},{"name":{"eq":"c"}}]},"#,
            r#""state":{"id":{"in":["state-progress","state-review","state-done"]},"#,
            r#""name":{"eq":"In Review"}},"#,
            r#""team":{"id":{"eq":"ENG"}},"#,
            r#""updatedAt":{"gte":"2026-01-01T10:00:00.500+00:00"}},"first":100}"#,
        ])
    );
}

fn concat_lines(lines: &[&str]) -> String {
    let mut text = String::new();
    for line in lines {
        text.push_str(line);
    }
    text
}

#[test]
fn list_without_a_filter_asks_for_fifty_of_the_team() {
    let mut linear = Linear::new(TEAM_STATES_DEFAULT).answer(
        "query AnimusListIssues",
        200,
        LIST_THREE_ISSUES,
    );
    let mut backend = backend_against();
    let step = backend.list(SubjectFilter::default());
    page(linear.run(&mut backend, step));
    assert_eq!(
        linear.variables("query AnimusListIssues").to_text(),
        r#"{"after":null,"filter":{"team":{"id":{"eq":"ENG"}}},"first":50}"#
    );
}

#[test]
fn list_asks_for_one_issue_at_least() {
    let mut linear = Linear::new(TEAM_STATES_DEFAULT).answer(
        "query AnimusListIssues",
        200,
        LIST_THREE_ISSUES,
    );
    let mut backend = backend_against();
    let step = backend.list(SubjectFilter {
        limit: Some(0),
        ..Default::default()
    });
    page(linear.run(&mut backend, step));
    assert_eq!(
        at(linear.variables("query AnimusListIssues"), &["first"]).and_then(|j| j.as_u64()),
        Some(1)
    );
}

#[test]
fn status_that_no_state_has_leaves_the_list_unfiltered() {
    let mut linear = Linear::new(TEAM_STATES_DEFAULT).answer(
        "query AnimusListIssues",
        200,
        LIST_THREE_ISSUES,
    );
    let mut backend = backend_against();
    let step = backend.list(SubjectFilter {
        status: vec![SubjectStatus::Blocked],
        ..Default::default()
    });
    page(linear.run(&mut backend, step));
    assert!(at(linear.variables("query AnimusListIssues"), &["filter", "state"]).is_none());
}

#[test]
fn update_sends_the_fields_of_the_patch() {
    let mut linear = Linear::new(TEAM_STATES_DEFAULT).answer(
        "mutation AnimusUpdateIssue",
        200,
        UPDATE_ISSUE_OK,
    );
    let mut backend = backend_against();
    let mut custom = StringMap::new();
    custom.insert("description".to_string(), Json::text("new body"));
    custom.insert("estimate".to_string(), Json::parse("2.5").unwrap());
    custom.insert("stateId".to_string(), Json::text("overridden"));
    custom.insert("assigneeId".to_string(), Json::text("user-7"));
    let patch = SubjectPatch {
        status: Some(SubjectStatus::Ready),
        assignee: Some(Some("bob".to_string())),
        custom,
        ..Default::default()
    };
    let step = backend.update(&SubjectId::new("linear:ENG-1"), patch);
    subject(linear.run(&mut backend, step));
    assert_eq!(
        linear.variables("mutation AnimusUpdateIssue").to_text(),
        concat_lines(&[
            r#"{"id":"ENG-1","input":{"assigneeId":"user-7","description":"new body","#,
            r#""estimate":2.5,"stateId":"state-backlog"}}"#,
        ])
    );
}

#[test]
fn create_sends_what_was_asked_for() {
    let mut linear = Linear::new(TEAM_STATES_CUSTOM).answer(
        "mutation AnimusCreateIssue",
        200,
        CREATE_ISSUE_OK,
    );
    let mut backend = backend_against();
    let request = CreateRequest {
        body: Some("Do it.".to_string()),
        status: Some("in-progress".to_string()),
        priority: Some("p0".to_string()),
        labels: vec!["wip".to_string()],
        project_id: Some("project-1".to_string()),
        team_id: Some("OPS".to_string()),
        ..create_request("  New thing\u{a0}\n")
    };
    let step = backend.create(request);
    let created = subject(linear.run(&mut backend, step));
    assert_eq!(
        linear.variables("mutation AnimusCreateIssue").to_text(),
        concat_lines(&[
            r#"{"input":{"description":"Do it.","priority":1,"projectId":"project-1","#,
            r#""stateId":"uuid-impl","teamId":"OPS","title":"New thing"}}"#,
        ])
    );
    assert_eq!(linear.count("query AnimusTeamStates"), 1);
    assert_eq!(created.id.as_str(), "linear:ENG-9");
    assert_eq!(created.priority, Some(4), "p0 is read back as critical");
}

#[test]
fn create_falls_back_to_the_configuration() {
    let mut linear = Linear::new(TEAM_STATES_CUSTOM).answer(
        "mutation AnimusCreateIssue",
        200,
        CREATE_ISSUE_OK,
    );
    let mut config = LinearConfig::new("test-token", URL, Some("ENG".to_string()));
    config.project_id = Some("project-9".to_string());
    let mut backend = LinearBackend::new(config).expect("backend should build");
    let request = CreateRequest {
        body: Some(String::new()),
        priority: Some("urgent".to_string()),
        ..create_request("New thing")
    };
    let step = backend.create(request);
    subject(linear.run(&mut backend, step));
    assert_eq!(
        linear.variables("mutation AnimusCreateIssue").to_text(),
        r#"{"input":{"projectId":"project-9","teamId":"ENG","title":"New thing"}}"#
    );
    assert_eq!(linear.count("query AnimusTeamStates"), 0);
}

#[test]
fn create_without_a_status_reads_the_issue_by_its_type() {
    let mut linear = Linear::new(TEAM_STATES_CUSTOM)
        .answer("query AnimusGetIssue", 200, GET_ONE_ISSUE)
        .answer("mutation AnimusCreateIssue", 200, CREATE_ISSUE_OK);
    let mut overrides = StringMap::new();
    overrides.insert("Spec".to_string(), SubjectStatus::Blocked);
    let mut backend = backend_with_overrides(overrides);
    let step = backend.get(&SubjectId::new("linear:ENG-1"));
    subject(linear.run(&mut backend, step));

    let step = backend.create(create_request("New thing"));
    assert_eq!(
        subject(linear.run(&mut backend, step)).status,
        SubjectStatus::Ready,
        "backlog by type, the known workflow does not matter"
    );
    let step = backend.create(CreateRequest {
        status: Some("done".to_string()),
        ..create_request("New thing")
    });
    assert_eq!(
        subject(linear.run(&mut backend, step)).status,
        SubjectStatus::Blocked,
        "by the workflow and its overrides"
    );
}

#[test]
fn create_rejects_what_it_cannot_do() {
    let mut linear = Linear::new(TEAM_STATES_CUSTOM);
    let mut backend = backend_against();

    let blank = done(backend.create(create_request(" \t\u{2003}\n")));
    assert_eq!(message(blank), "InvalidRequest: title must not be empty");

    let without_team = backend_without_team();
    let no_team = done(without_team.create(create_request("New thing")));
    assert_eq!(
        message(no_team),
        "InvalidRequest: LINEAR_TEAM_ID must be set to create issues"
    );

    let step = backend.create(CreateRequest {
        status: Some("Shipped \"soon\"".to_string()),
        ..create_request("New thing")
    });
    assert_eq!(
        message(linear.run(&mut backend, step)),
        "InvalidRequest: unknown status \"Shipped \\\"soon\\\"\""
    );

    let step = backend.create(CreateRequest {
        status: Some("blocked".to_string()),
        ..create_request("New thing")
    });
    assert_eq!(
        message(linear.run(&mut backend, step)),
        "InvalidRequest: no Linear workflow state maps to animus status Blocked; configure \
         LINEAR_STATUS_MAP env var to override"
    );
    assert_eq!(linear.count("query AnimusTeamStates"), 1);
}

fn message(outcome: Result<Reply, BackendError>) -> String {
    match outcome {
        Ok(reply) => panic!("expected an error, got {reply:?}"),
        Err(BackendError::NotFound(m)) => format!("NotFound: {m}"),
        Err(BackendError::InvalidRequest(m)) => format!("InvalidRequest: {m}"),
        Err(BackendError::PermissionDenied(m)) => format!("PermissionDenied: {m}"),
        Err(BackendError::Unavailable(m)) => format!("Unavailable: {m}"),
        Err(BackendError::Other(m)) => format!("Other: {m}"),
    }
}

#[test]
fn calls_that_need_the_workflow_need_a_team() {
    let backend = backend_without_team();
    let id = SubjectId::new("linear:ENG-1");
    let with_status = CreateRequest {
        status: Some("ready".to_string()),
        team_id: Some("OPS".to_string()),
        ..create_request("New thing")
    };
    for outcome in [
        done(backend.list(SubjectFilter::default())),
        done(backend.get(&id)),
        done(backend.update(&id, SubjectPatch::default())),
        done(backend.create(with_status)),
    ] {
        assert_eq!(
            message(outcome),
            "InvalidRequest: LINEAR_TEAM_ID must be set to discover workflow states for status \
             mapping"
        );
    }
}

#[test]
fn workflow_query_that_fails_is_reported_and_tried_again() {
    let mut backend = backend_against();
    let id = SubjectId::new("linear:ENG-1");

    match backend.get(&id) {
        Step::Send(_, pending) => assert_eq!(
            message(done(backend.resume(pending, Err(ClientError::Transport)))),
            "Unavailable: linear workflow states query failed"
        ),
        other => panic!("expected a request, got {other:?}"),
    }

    let mut refused = Linear::new(r#"{ "errors": [{ "message": "Unauthorized" }] }"#);
    let step = backend.get(&id);
    assert_eq!(
        message(refused.run(&mut backend, step)),
        "Unavailable: linear graphql errors: Unauthorized"
    );

    let mut no_team = Linear::new(r#"{ "data": { "team": null } }"#);
    let step = backend.get(&id);
    assert_eq!(
        message(no_team.run(&mut backend, step)),
        "Unavailable: linear response missing team.states.nodes"
    );

    let mut odd = Linear::new(r#"{ "data": { "team": { "states": { "nodes": [{}] } } } }"#);
    let step = backend.get(&id);
    assert_eq!(
        message(odd.run(&mut backend, step)),
        "Unavailable: could not deserialize team.states.nodes as workflow states"
    );

    let mut linear =
        Linear::new(TEAM_STATES_DEFAULT).answer("query AnimusGetIssue", 200, GET_ONE_ISSUE);
    let step = backend.get(&id);
    subject(linear.run(&mut backend, step));
    assert_eq!(linear.count("query AnimusTeamStates"), 1);
}

#[test]
fn workflow_that_is_learnt_first_stays() {
    let mut backend = backend_against();
    let id = SubjectId::new("linear:ENG-1");
    let first = backend.get(&id);
    let second = backend.get(&id);

    let mut linear =
        Linear::new(TEAM_STATES_DEFAULT).answer("query AnimusGetIssue", 200, GET_ONE_ISSUE);
    subject(linear.run(&mut backend, first));
    let mut late =
        Linear::new(TEAM_STATES_CUSTOM).answer("query AnimusGetIssue", 200, GET_ONE_ISSUE);
    subject(late.run(&mut backend, second));
    assert_eq!(backend.schema().native_status_values[0], "Backlog");
    assert_eq!(backend.schema().native_status_values.len(), 6);
}

#[test]
fn call_that_waited_goes_on_with_a_workflow_that_came_meanwhile() {
    let mut backend = backend_against();
    let id = SubjectId::new("linear:ENG-1");
    let waiting = match backend.get(&id) {
        Step::Send(_, Pending::States(call)) => call,
        other => panic!("expected the query for the workflow, got {other:?}"),
    };
    let mut linear =
        Linear::new(TEAM_STATES_DEFAULT).answer("query AnimusGetIssue", 200, GET_ONE_ISSUE);
    let step = backend.get(&id);
    subject(linear.run(&mut backend, step));
    let step = backend.proceed(waiting);
    subject(linear.run(&mut backend, step));
    assert_eq!(linear.count("query AnimusTeamStates"), 1);
}

#[test]
fn schema_names_the_discovered_states() {
    let mut linear =
        Linear::new(TEAM_STATES_CUSTOM).answer("query AnimusGetIssue", 200, GET_ONE_ISSUE);
    let mut backend = backend_against();
    assert_eq!(
        backend.schema().native_status_values,
        vec![
            "Backlog",
            "Triage",
            "Todo",
            "In Progress",
            "In Review",
            "Blocked",
            "Done",
            "Cancelled",
            "Duplicate"
        ]
    );
    let step = backend.get(&SubjectId::new("linear:ENG-1"));
    subject(linear.run(&mut backend, step));
    assert_eq!(
        backend.schema().native_status_values,
        vec!["Spec", "Implementation", "Shipped"]
    );
    let schema = backend.schema();
    assert_eq!(schema.status_values.len(), 5);
    assert!(schema.supports_create && !schema.supports_delete);
    assert!(schema.status_dispatch_hints.is_empty());
    let keys: Vec<&str> = schema.custom_fields.iter().map(|f| f.key.as_str()).collect();
    assert_eq!(
        keys,
        vec!["priority", "linear_state_name", "linear_state_type", "linear_uuid"]
    );
    assert_eq!(
        schema.custom_fields[2].values.as_ref().map(|v| v.len()),
        Some(6)
    );
}

#[test]
fn failures_of_a_call_name_their_reason() {
    let id = SubjectId::new("linear:ENG-1");
    let get = |status: u16, body: &str| {
        let mut linear =
            Linear::new(TEAM_STATES_DEFAULT).answer("query AnimusGetIssue", status, body);
        let mut backend = backend_against();
        let step = backend.get(&id);
        message(linear.run(&mut backend, step))
    };
    assert_eq!(get(200, r#"{ "data": { "issue": null } }"#), "NotFound: linear:ENG-1");
    assert_eq!(get(200, r#"{ "data": {} }"#), "NotFound: linear:ENG-1");
    assert_eq!(
        get(200, r#"{ "data": null }"#),
        "Unavailable: linear response missing `data` field"
    );
    assert_eq!(
        get(200, "<html>"),
        "Unavailable: linear response was not valid JSON"
    );
    assert_eq!(
        get(502, r#"{ "data": { "a": [true] } }"#),
        "Unavailable: linear http 502 Bad Gateway: Some(Object {\"a\": Array [Bool(true)]})"
    );
    assert_eq!(
        get(404, "{}"),
        "NotFound: linear http 404 Not Found: None"
    );
    assert_eq!(
        get(200, r#"{ "errors": [{ "message": "AUTHENTICATION required" }, { "message": "x" }] }"#),
        "PermissionDenied: linear graphql errors: AUTHENTICATION required; x"
    );
    assert_eq!(
        get(200, r#"{ "errors": [{ "message": "Entity not found: Issue" }] }"#),
        "NotFound: linear graphql errors: Entity not found: Issue"
    );
    assert_eq!(
        get(200, r#"{ "data": { "issue": { "title": "t" } } }"#),
        "Other: linear issue node is missing `identifier`: {\"title\":\"t\"}"
    );
    assert_eq!(
        get(200, r#"{ "data": { "issue": { "identifier": "ENG-1" } } }"#),
        "Other: missing timestamp"
    );
    assert_eq!(
        get(
            200,
            r#"{ "data": { "issue": { "identifier": "ENG-1", "createdAt": "yesterday" } } }"#
        ),
        "Other: invalid timestamp \"yesterday\": premature end of input"
    );
}

#[test]
fn list_fails_where_the_page_is_malformed() {
    let list = |body: &str| {
        let mut linear =
            Linear::new(TEAM_STATES_DEFAULT).answer("query AnimusListIssues", 200, body);
        let mut backend = backend_against();
        let step = backend.list(SubjectFilter::default());
        message(linear.run(&mut backend, step))
    };
    assert_eq!(list(r#"{ "data": {} }"#), "Other: missing `issues` in response");
    assert_eq!(
        list(r#"{ "data": { "issues": { "nodes": {} } } }"#),
        "Other: missing `issues.nodes` array"
    );
    assert_eq!(
        list(r#"{ "data": { "issues": { "nodes": [{ "identifier": "A" }, {}] } } }"#),
        "Other: missing timestamp"
    );
}

#[test]
fn update_that_linear_rejects_is_reported() {
    let id = SubjectId::new("linear:ENG-1");
    let update = |body: &str, comment: Option<&str>, reply: &str| {
        let mut linear = Linear::new(TEAM_STATES_DEFAULT)
            .answer("mutation AnimusUpdateIssue", 200, body)
            .answer("mutation AnimusCreateComment", 200, reply);
        let mut backend = backend_against();
        let patch = SubjectPatch {
            status: Some(SubjectStatus::Done),
            comment: comment.map(str::to_string),
            ..Default::default()
        };
        let step = backend.update(&id, patch);
        message(linear.run(&mut backend, step))
    };
    assert_eq!(
        update(r#"{ "data": {} }"#, None, "{}"),
        "Other: missing `issueUpdate` in response"
    );
    assert_eq!(
        update(r#"{ "data": { "issueUpdate": { "success": false } } }"#, None, "{}"),
        "InvalidRequest: linear rejected update for linear:ENG-1: {\"success\":false}"
    );
    assert_eq!(
        update(
            r#"{ "data": { "issueUpdate": { "success": true, "issue": null } } }"#,
            None,
            "{}"
        ),
        "NotFound: linear:ENG-1"
    );
    assert_eq!(
        update(
            r#"{ "data": { "issueUpdate": { "success": true, "issue": { "title": "t" } } } }"#,
            Some("hi"),
            "{}"
        ),
        "Other: linear response for linear:ENG-1 is missing issue.id; cannot post comment"
    );
    assert_eq!(
        update(
            UPDATE_ISSUE_OK,
            Some("hi"),
            r#"{ "data": { "commentCreate": { "success": false } } }"#
        ),
        "InvalidRequest: linear rejected comment for linear:ENG-1: \
         {\"commentCreate\":{\"success\":false}}"
    );
    assert_eq!(
        update(
            UPDATE_ISSUE_OK,
            Some("hi"),
            r#"{ "errors": [{ "message": "Unauthorized" }] }"#
        ),
        "PermissionDenied: linear graphql errors: Unauthorized"
    );
}

#[test]
fn create_that_linear_rejects_is_reported() {
    let create = |body: &str| {
        let mut linear =
            Linear::new(TEAM_STATES_DEFAULT).answer("mutation AnimusCreateIssue", 200, body);
        let mut backend = backend_against();
        let step = backend.create(create_request("New thing"));
        message(linear.run(&mut backend, step))
    };
    assert_eq!(
        create(r#"{ "data": {} }"#),
        "Other: missing `issueCreate` in response"
    );
    assert_eq!(
        create(r#"{ "data": { "issueCreate": { "success": "yes" } } }"#),
        "InvalidRequest: linear rejected issue create: {\"success\":\"yes\"}"
    );
    assert_eq!(
        create(r#"{ "data": { "issueCreate": { "success": true } } }"#),
        "Other: issueCreate returned no issue node"
    );
}

#[test]
fn requests_that_do_not_get_through_are_reported() {
    let backend = backend_against();
    let lost = |pending: Pending| message(done(backend.resume(pending, Err(ClientError::Transport))));
    let lost_message = "Unavailable: linear graphql request failed at the transport layer";
    assert_eq!(lost(Pending::Page), lost_message);
    assert_eq!(lost(Pending::Created(true)), lost_message);
    assert_eq!(lost(Pending::Health), lost_message);
    assert_eq!(lost(Pending::Issue(SubjectId::new("linear:A-1"), None)), lost_message);
    assert_eq!(lost(Pending::Updated(SubjectId::new("linear:A-1"), None)), lost_message);
    assert_eq!(
        lost(Pending::Comment(SubjectId::new("linear:A-1"), Json::Null)),
        lost_message
    );
}

#[test]
fn health_without_errors_goes_by_the_http_status() {
    let mut linear = Linear::new(TEAM_STATES_DEFAULT).answer("query AnimusHealth", 503, "{}");
    let mut backend = backend_against();
    let step = backend.health();
    let health = health(linear.run(&mut backend, step));
    assert_eq!(health.status, HealthStatus::Unhealthy);
    assert_eq!(
        health.last_error.as_deref(),
        Some("linear returned HTTP 503 Service Unavailable")
    );
}

#[test]
fn status_of_an_issue_falls_back_to_name_and_type() {
    let issue = |state: &str| {
        let mut body = String::from(r#"{ "data": { "issue": { "identifier": "ENG-1", "#);
        body.push_str(r#""createdAt": "2026-01-01T10:00:00Z", "#);
        body.push_str(r#""updatedAt": "2026-01-01T12:00:00+02:00", "state": "#);
        body.push_str(state);
        body.push_str("} } }");
        let mut linear =
            Linear::new(TEAM_STATES_CUSTOM).answer("query AnimusGetIssue", 200, &body);
        let mut overrides = StringMap::new();
        overrides.insert("Spec".to_string(), SubjectStatus::Blocked);
        let mut backend = backend_with_overrides(overrides);
        let step = backend.get(&SubjectId::new("linear:ENG-1"));
        let found = subject(linear.run(&mut backend, step));
        assert_eq!(found.created_at, found.updated_at);
        assert_eq!(found.title, "");
        found.status
    };
    assert_eq!(
        issue(r#"{ "id": "uuid-ship", "name": "Spec", "type": "backlog" }"#),
        SubjectStatus::Done
    );
    assert_eq!(
        issue(r#"{ "id": "uuid-new", "name": "Spec", "type": "completed" }"#),
        SubjectStatus::Blocked
    );
    assert_eq!(
        issue(r#"{ "id": "uuid-new", "name": "spec", "type": "completed" }"#),
        SubjectStatus::Done
    );
    assert_eq!(issue("null"), SubjectStatus::Ready);
}

#[test]
fn operations_ask_for_the_same_fields() {
    let mut linear = Linear::new(TEAM_STATES_DEFAULT);
    let mut backend = backend_against();
    let id = SubjectId::new("linear:ENG-1");
    let step = backend.get(&id);
    let step = match step {
        Step::Send(request, pending) => {
            let outcome = linear.send(&backend, request);
            match backend.resume(pending, outcome) {
                Step::Decode(nodes, call) => {
                    backend.resume_with_states(call, decode_states(&nodes))
                }
                other => panic!("expected states, got {other:?}"),
            }
        }
        other => panic!("expected a request, got {other:?}"),
    };
    let patch = SubjectPatch {
        status: Some(SubjectStatus::Done),
        ..Default::default()
    };
    for step in [
        step,
        backend.list(SubjectFilter::default()),
        backend.update(&id, patch),
        backend.create(create_request("New thing")),
    ] {
        match step {
            Step::Send(request, _) => assert!(request.query.contains(ISSUE_FIELDS)),
            other => panic!("expected a request, got {other:?}"),
        }
    }
}

#[test]
fn token_has_to_be_fit_for_a_header() {
    let bad = LinearConfig::new("to\nken", URL, None);
    match LinearBackend::new(bad) {
        Err(e) => {
            assert_eq!(e, ClientError::InvalidToken);
            assert_eq!(
                e.message(),
                "LINEAR_API_TOKEN contains characters that aren't valid in a header"
            );
        }
        Ok(_) => panic!("a line feed cannot stand in a header"),
    }
    assert!(LinearBackend::new(LinearConfig::new("to\tk\u{e9}n", URL, None)).is_ok());
    assert!(LinearBackend::new(LinearConfig::new("del\u{7f}", URL, None)).is_err());
}

#[test]
fn calls_take_three_requests_at_most() {
    let mut linear = Linear::new(TEAM_STATES_DEFAULT)
        .answer("mutation AnimusUpdateIssue", 200, UPDATE_ISSUE_OK)
        .answer("mutation AnimusCreateComment", 200, COMMENT_CREATE_OK);
    let mut backend = backend_against();
    let patch = || SubjectPatch {
        status: Some(SubjectStatus::InProgress),
        comment: Some("on it".to_string()),
        ..Default::default()
    };
    let id = SubjectId::new("linear:ENG-1");
    let step = backend.update(&id, patch());
    let updated = subject(linear.run(&mut backend, step));
    assert_eq!(linear.sent.len(), 3);
    assert_eq!(
        updated.status,
        SubjectStatus::InProgress,
        "the comment leaves the subject as the change brought it"
    );
    let step = backend.update(&id, patch());
    subject(linear.run(&mut backend, step));
    assert_eq!(linear.sent.len(), 5, "the workflow is known");
}

#[test]
fn listed_subjects_can_be_fetched() {
    let mut linear = Linear::new(TEAM_STATES_DEFAULT)
        .answer("query AnimusListIssues", 200, LIST_THREE_ISSUES)
        .answer("query AnimusGetIssue", 200, GET_ONE_ISSUE);
    let mut backend = backend_against();
    let step = backend.list(SubjectFilter {
        limit: Some(7),
        ..Default::default()
    });
    let page = page(linear.run(&mut backend, step));
    assert_eq!(
        at(linear.variables("query AnimusListIssues"), &["first"]).and_then(|j| j.as_u64()),
        Some(7)
    );
    let step = backend.get(&page.subjects[0].id);
    let fetched = subject(linear.run(&mut backend, step));
    assert_eq!(
        text_at(linear.variables("query AnimusGetIssue"), &["id"]).as_deref(),
        Some("ENG-1")
    );
    assert_eq!(fetched.id.as_str(), page.subjects[0].id.as_str());
    assert_eq!(fetched.title, page.subjects[0].title);
}

#[test]
fn schema_covers_the_fields_of_subjects() {
    let mut linear =
        Linear::new(TEAM_STATES_DEFAULT).answer("query AnimusGetIssue", 200, GET_ONE_ISSUE);
    let mut backend = backend_against();
    let step = backend.get(&SubjectId::new("linear:ENG-1"));
    let found = subject(linear.run(&mut backend, step));
    let schema = backend.schema();
    assert!(schema.kinds.contains(&found.kind));
    assert!(schema.status_values.contains(&found.status));
    assert_eq!(found.custom.len(), 3);
    for (key, _) in &found.custom.entries {
        assert!(schema.custom_fields.iter().any(|f| &f.key == key), "{key}");
    }
}

#[test]
fn foreign_ids_are_rejected_without_a_token_too() {
    let backend = backend_without_token();
    let id = SubjectId::new("github:ENG-1");
    for outcome in [
        done(backend.get(&id)),
        done(backend.update(&id, SubjectPatch::default())),
    ] {
        assert_eq!(
            message(outcome),
            "InvalidRequest: subject id \"github:ENG-1\" is not a linear id (expected \
             `linear:<identifier>` prefix)"
        );
    }
}

#[test]
fn requests_carry_the_token_exactly_if_there_is_one() {
    let config = LinearConfig::new("lin_api_x y", URL, None);
    let client = LinearClient::new(&config).expect("client should build");
    for client in [&client, &client.clone()] {
        assert!(client.has_token());
        let post = client.execute("query Q { a }", Json::Null);
        assert_eq!(post.url, URL);
        assert_eq!(post.body, r#"{"query":"query Q { a }","variables":null}"#);
        assert_eq!(
            post.headers,
            vec![
                ("content-type".to_string(), "application/json".to_string()),
                ("authorization".to_string(), "lin_api_x y".to_string()),
            ]
        );
    }

    let client = LinearClient::new(&LinearConfig::without_token(URL, Some("ENG".to_string())))
        .expect("client should build");
    assert!(!client.has_token());
    assert_eq!(client.team_id(), Some("ENG"));
    assert_eq!(client.project_id(), None);
    let post = client.execute("query Q { a }", Json::Null);
    assert_eq!(header(&post, "content-type"), vec!["application/json"]);
    assert!(header(&post, "authorization").is_empty());
}

#[test]
fn labels_are_dropped_only_from_creations_that_go_on() {
    let labelled = |title: &str| CreateRequest {
        labels: vec!["wip".to_string()],
        ..create_request(title)
    };
    assert!(backend_against().drops_labels(&labelled("New thing")));
    assert!(!backend_against().drops_labels(&create_request("New thing")));
    assert!(!backend_against().drops_labels(&labelled(" ")));
    assert!(!backend_without_token().drops_labels(&labelled("New thing")));
    assert!(!backend_without_team().drops_labels(&labelled("New thing")));
    let with_team = CreateRequest {
        team_id: Some("OPS".to_string()),
        ..labelled("New thing")
    };
    assert!(backend_without_team().drops_labels(&with_team));
}

#[test]
fn debug_text_of_a_client_does_not_show_the_token() {
    let config = LinearConfig::new("lin_api_x", URL, None);
    let client = LinearClient::new(&config).expect("client should build");
    let backend = LinearBackend::new(config).expect("backend should build");
    for text in [
        format!("{client:?}"),
        format!("{:?}", client.clone()),
        format!("{backend:?}"),
    ] {
        assert!(!text.contains("lin_api_x"), "{text}");
        assert!(text.contains("Sensitive"), "{text}");
    }
}

#[test]
fn tokens_are_sent_byte_for_byte() {
    for token in ["lin_api_x", "", "a\tb", "k\u{e9}y \u{1f511}"] {
        let client = LinearClient::new(&LinearConfig::new(token, URL, None))
            .expect("client should build");
        let post = client.execute("query Q { a }", Json::Null);
        assert_eq!(header(&post, "authorization"), vec![token]);
    }
}
