//! The Linear backend as a state machine.
//!
//! A call on [`LinearBackend`] answers with a [`Step`]: it is done, or a
//! request has to be sent first. Whoever drives the machine sends the request
//! and hands what came back to [`LinearBackend::resume`], until it is done.
//!
//! Statuses go by the team's workflow. The first call that needs it asks Linear
//! for the workflow; the backend keeps it for all later calls.

use vstd::prelude::*;

use crate::client::{
    client_of, state_nodes, state_views, status_text, team_states_request, token_safe,
    workflow_state_nodes, ClientError, ClientView, GraphQlRequest, GraphQlResponse, LinearClient,
    LinearWorkflowState, RequestView, ResponseView, WorkflowStateView,
};
use crate::config::{ConfigView, LinearConfig};
use crate::input::{
    build_create_input, build_issue_filter, build_update_input, create_input, first_of,
    issue_filter, update_input, CreateRequestView,
};
use crate::issue::{
    graphql_error, issue_subject, issue_to_subject, keep_non_blank, map_graphql_err, native_id,
    native_id_of, no_members, non_blank, opt_member, SUBJECT_KIND,
};
use crate::json::{
    array_view, is_true, json_text, json_view, lemma_array_view, member, member2, non_null,
    number_of, object1, object2, object_view, set_member, text_member, text_or_null, Json, JsonView,
};
use crate::status_map::{
    empty_map, fallback_native_statuses, fallback_statuses, workflow_map, StatusMap, StatusMapView,
};
use crate::string_map::StringMap;
use crate::subject::{
    subject_views, BackendError, BackendErrorView, CustomFieldKind, CustomFieldSpec,
    CustomFieldView, HealthCheckResult, HealthStatus, HealthView, Subject, SubjectFilter,
    SubjectFilterView, SubjectId, SubjectList, SubjectListView, SubjectPatch, SubjectPatchView,
    SubjectSchema, SubjectSchemaView, SubjectStatus, SubjectView,
};
use crate::text::{clone_texts, joined, opt_str, opt_text, texts, trim, trimmed};

pub use crate::input::CreateRequest;

verus! {

/// What the calls that need a token say without one.
pub const MISSING_TOKEN_MSG: &'static str = "LINEAR_API_TOKEN required";

/// What the health check says without a token.
pub const HEALTH_MISSING_TOKEN: &'static str = "LINEAR_API_TOKEN unset";

/// What a call that needs the team's workflow says without a team.
pub const DISCOVERY_TEAM_MSG: &'static str =
    "LINEAR_TEAM_ID must be set to discover workflow states for status mapping";

/// What `create` says without a team.
pub const CREATE_TEAM_MSG: &'static str = "LINEAR_TEAM_ID must be set to create issues";

/// What `create` says to a title of white space.
pub const EMPTY_TITLE_MSG: &'static str = "title must not be empty";

/// What a call says when the query for the workflow did not get through.
pub const STATES_QUERY_MSG: &'static str = "linear workflow states query failed";

/// What a call says when the workflow's states do not decode.
pub const STATES_DECODE_MSG: &'static str =
    "could not deserialize team.states.nodes as workflow states";

/// The fields that are read of an issue, the same in every operation.
pub const ISSUE_FIELDS: &'static str = r#"
id
identifier
title
description
priority
url
createdAt
updatedAt
state { id name type }
assignee { id name email }
labels(first: 50) { nodes { name } }
parent { identifier }
children(first: 50) { nodes { identifier } }
"#;

/// The query for a page of issues, up to the fields.
pub const LIST_HEAD: &'static str =
    r#"
            query AnimusListIssues($filter: IssueFilter, $first: Int, $after: String) {
              issues(filter: $filter, first: $first, after: $after, orderBy: updatedAt) {
                pageInfo { hasNextPage endCursor }
                nodes {
                  "#;

/// What follows the fields of a node.
pub const NODE_TAIL: &'static str =
    r#"
                }
              }
            }
            "#;

/// The query for one issue, up to the fields.
pub const GET_HEAD: &'static str =
    r#"
            query AnimusGetIssue($id: String!) {
              issue(id: $id) {
                "#;

/// What follows the fields in the query for one issue.
pub const GET_TAIL: &'static str = r#"
              }
            }
            "#;

/// The mutation that changes an issue, up to the fields.
pub const UPDATE_HEAD: &'static str =
    r#"
            mutation AnimusUpdateIssue($id: String!, $input: IssueUpdateInput!) {
              issueUpdate(id: $id, input: $input) {
                success
                issue {
                  "#;

/// The mutation that creates an issue, up to the fields.
pub const CREATE_HEAD: &'static str =
    r#"
            mutation AnimusCreateIssue($input: IssueCreateInput!) {
              issueCreate(input: $input) {
                success
                issue {
                  "#;

/// The mutation that posts a comment.
pub const COMMENT_MUTATION: &'static str =
    r#"
        mutation AnimusCreateComment($input: CommentCreateInput!) {
          commentCreate(input: $input) {
            success
            comment { id }
          }
        }
        "#;

/// The query of the health check.
pub const HEALTH_QUERY: &'static str = "query AnimusHealth { viewer { id name } }";

/// The query for a page of issues.
pub open spec fn list_query_text() -> Seq<char> {
    LIST_HEAD@ + ISSUE_FIELDS@ + NODE_TAIL@
}

/// The query for one issue.
pub open spec fn get_query_text() -> Seq<char> {
    GET_HEAD@ + ISSUE_FIELDS@ + GET_TAIL@
}

/// The mutation that changes an issue.
pub open spec fn update_mutation_text() -> Seq<char> {
    UPDATE_HEAD@ + ISSUE_FIELDS@ + NODE_TAIL@
}

/// The mutation that creates an issue.
pub open spec fn create_mutation_text() -> Seq<char> {
    CREATE_HEAD@ + ISSUE_FIELDS@ + NODE_TAIL@
}

fn around_fields(head: &str, tail: &str) -> (operation: String)
    ensures
        operation@ == head@ + ISSUE_FIELDS@ + tail@,
{
    let mut operation = head.to_owned();
    operation.append(ISSUE_FIELDS);
    operation.append(tail);
    operation
}

/// The query for a page of issues.
pub fn list_query() -> (query: String)
    ensures
        query@ == list_query_text(),
{
    around_fields(LIST_HEAD, NODE_TAIL)
}

/// The query for one issue.
pub fn get_query() -> (query: String)
    ensures
        query@ == get_query_text(),
{
    around_fields(GET_HEAD, GET_TAIL)
}

/// The mutation that changes an issue.
pub fn update_mutation() -> (mutation: String)
    ensures
        mutation@ == update_mutation_text(),
{
    around_fields(UPDATE_HEAD, NODE_TAIL)
}

/// The mutation that creates an issue.
pub fn create_mutation() -> (mutation: String)
    ensures
        mutation@ == create_mutation_text(),
{
    around_fields(CREATE_HEAD, NODE_TAIL)
}

/// The mutation that posts a comment. A comment goes into the issue's activity;
/// its description stays as it is.
pub fn comment_mutation() -> (mutation: &'static str)
    ensures
        mutation@ == COMMENT_MUTATION@,
{
    COMMENT_MUTATION
}

/// A call that may need the team's workflow.
#[derive(Debug)]
pub enum Call {
    /// A page of subjects.
    List(SubjectFilter),
    /// One subject.
    Get(SubjectId),
    /// A change of one subject.
    Update(SubjectId, SubjectPatch),
    /// A new subject.
    Create(CreateRequest),
}

/// What a [`Call`] says.
pub enum CallView {
    /// A page of subjects.
    List(SubjectFilterView),
    /// One subject.
    Get(Seq<char>),
    /// A change of one subject.
    Update(Seq<char>, SubjectPatchView),
    /// A new subject.
    Create(CreateRequestView),
}

impl View for Call {
    type V = CallView;

    open spec fn view(&self) -> CallView {
        match self {
            Call::List(filter) => CallView::List(filter@),
            Call::Get(id) => CallView::Get(id@),
            Call::Update(id, patch) => CallView::Update(id@, patch@),
            Call::Create(req) => CallView::Create(req@),
        }
    }
}

/// What a request that was sent is for.
#[derive(Debug)]
pub enum Pending {
    /// The team's workflow, for a call that waits for it.
    States(Call),
    /// A page of issues.
    Page,
    /// One issue, and a comment to post on it.
    Issue(SubjectId, Option<String>),
    /// A change of an issue, and a comment to post on it.
    Updated(SubjectId, Option<String>),
    /// A comment on an issue.
    Comment(SubjectId, Json),
    /// A new issue. `true` if it is to be read by the team's workflow.
    Created(bool),
    /// A health check.
    Health,
}

/// What a [`Pending`] says.
pub enum PendingView {
    /// The team's workflow, for a call that waits for it.
    States(CallView),
    /// A page of issues.
    Page,
    /// One issue, and a comment to post on it.
    Issue(Seq<char>, Option<Seq<char>>),
    /// A change of an issue, and a comment to post on it.
    Updated(Seq<char>, Option<Seq<char>>),
    /// A comment on an issue.
    Comment(Seq<char>, JsonView),
    /// A new issue. `true` if it is to be read by the team's workflow.
    Created(bool),
    /// A health check.
    Health,
}

impl View for Pending {
    type V = PendingView;

    open spec fn view(&self) -> PendingView {
        match self {
            Pending::States(call) => PendingView::States(call@),
            Pending::Page => PendingView::Page,
            Pending::Issue(id, comment) => PendingView::Issue(id@, opt_text(*comment)),
            Pending::Updated(id, comment) => PendingView::Updated(id@, opt_text(*comment)),
            Pending::Comment(id, issue) => PendingView::Comment(id@, issue@),
            Pending::Created(discovered) => PendingView::Created(*discovered),
            Pending::Health => PendingView::Health,
        }
    }
}

/// What a call brings.
#[derive(Debug)]
pub enum Reply {
    /// A page of subjects.
    Page(SubjectList),
    /// One subject.
    Subject(Subject),
    /// The verdict of a health check.
    Health(HealthCheckResult),
}

/// What a [`Reply`] says.
pub enum ReplyView {
    /// A page of subjects.
    Page(SubjectListView),
    /// One subject.
    Subject(SubjectView),
    /// The verdict of a health check.
    Health(HealthView),
}

impl View for Reply {
    type V = ReplyView;

    open spec fn view(&self) -> ReplyView {
        match self {
            Reply::Page(page) => ReplyView::Page(page@),
            Reply::Subject(subject) => ReplyView::Subject(subject@),
            Reply::Health(health) => ReplyView::Health(health@),
        }
    }
}

/// What is to be done next.
#[derive(Debug)]
pub enum Step {
    /// Send the request, and hand what comes back to
    /// [`LinearBackend::resume`].
    Send(GraphQlRequest, Pending),
    /// Decode the document as a list of [`LinearWorkflowState`], and hand the
    /// list to [`LinearBackend::resume_with_states`].
    Decode(Json, Call),
    /// Nothing: this is the outcome of the call.
    Done(Result<Reply, BackendError>),
}

/// What a [`Step`] says.
pub enum StepView {
    /// Send the request.
    Send(RequestView, PendingView),
    /// Decode the document as workflow states.
    Decode(JsonView, CallView),
    /// Nothing: this is the outcome of the call.
    Done(Result<ReplyView, BackendErrorView>),
}

impl View for Step {
    type V = StepView;

    open spec fn view(&self) -> StepView {
        match self {
            Step::Send(request, pending) => StepView::Send(request@, pending@),
            Step::Decode(nodes, call) => StepView::Decode(nodes@, call@),
            Step::Done(Ok(reply)) => StepView::Done(Ok(reply@)),
            Step::Done(Err(e)) => StepView::Done(Err(e@)),
        }
    }
}

/// The call failed.
pub open spec fn failed(error: BackendErrorView) -> StepView {
    StepView::Done(Err(error))
}

/// How many issues a page has: what is asked for, from 1 to 100, or 50.
pub open spec fn page_size(limit: Option<u32>) -> u64 {
    match limit {
        Some(n) => if n < 1 {
            1
        } else if n > 100 {
            100
        } else {
            n as u64
        },
        None => 50,
    }
}

/// The request for a page of issues.
pub open spec fn list_request(
    team_id: Option<Seq<char>>,
    filter: SubjectFilterView,
    map: StatusMapView,
) -> RequestView {
    RequestView {
        query: list_query_text(),
        variables: JsonView::Object(
            Map::empty().insert("filter"@, issue_filter(team_id, filter, map)).insert(
                "first"@,
                JsonView::Number(number_of(page_size(filter.limit))),
            ).insert("after"@, text_or_null(filter.cursor)),
        ),
    }
}

/// The request for one issue.
pub open spec fn get_request(native: Seq<char>) -> RequestView {
    RequestView { query: get_query_text(), variables: object1("id"@, JsonView::Text(native)) }
}

/// The request that changes an issue.
pub open spec fn update_request(native: Seq<char>, input: Map<Seq<char>, JsonView>) -> RequestView {
    RequestView {
        query: update_mutation_text(),
        variables: object2("id"@, JsonView::Text(native), "input"@, JsonView::Object(input)),
    }
}

/// The request that creates an issue.
pub open spec fn create_request(input: Map<Seq<char>, JsonView>) -> RequestView {
    RequestView {
        query: create_mutation_text(),
        variables: object1("input"@, JsonView::Object(input)),
    }
}

/// The request that posts a comment on the issue with this UUID.
pub open spec fn comment_request(uuid: Seq<char>, body: Seq<char>) -> RequestView {
    RequestView {
        query: COMMENT_MUTATION@,
        variables: object1(
            "input"@,
            object2("issueId"@, JsonView::Text(uuid), "body"@, JsonView::Text(body)),
        ),
    }
}

/// The request of the health check.
pub open spec fn health_request() -> RequestView {
    RequestView { query: HEALTH_QUERY@, variables: JsonView::Object(Map::empty()) }
}

/// What a [`LinearBackend`] holds.
pub struct BackendView {
    /// Where requests go and what they are about.
    pub client: ClientView,
    /// Statuses of states by name.
    pub overrides: Map<Seq<char>, SubjectStatus>,
    /// The team's workflow, once it is known.
    pub status_map: Option<StatusMapView>,
}

/// The first step of a change: what there is to change goes into an
/// `issueUpdate`; without anything the issue is only fetched.
pub open spec fn update_step(
    id: Seq<char>,
    native: Seq<char>,
    patch: SubjectPatchView,
    map: StatusMapView,
) -> StepView {
    match update_input(patch, map) {
        Err(e) => failed(e),
        Ok(input) => if input == Map::<Seq<char>, JsonView>::empty() {
            StepView::Send(get_request(native), PendingView::Issue(id, patch.comment))
        } else {
            StepView::Send(update_request(native, input), PendingView::Updated(id, patch.comment))
        },
    }
}

/// The first step of a creation in `team`.
pub open spec fn create_step(
    client: ClientView,
    req: CreateRequestView,
    team: Seq<char>,
    map: StatusMapView,
) -> StepView {
    match create_input(req, team, client.project_id, map) {
        Err(e) => failed(e),
        Ok(input) => StepView::Send(
            create_request(input),
            PendingView::Created(req.status is Some),
        ),
    }
}

/// The first step of a call once the team's workflow is known.
pub open spec fn act(client: ClientView, call: CallView, map: StatusMapView) -> StepView {
    match call {
        CallView::List(filter) => StepView::Send(
            list_request(client.team_id, filter, map),
            PendingView::Page,
        ),
        CallView::Get(id) => match native_id_of(id) {
            Ok(native) => StepView::Send(get_request(native), PendingView::Issue(id, None)),
            Err(e) => failed(e),
        },
        CallView::Update(id, patch) => match native_id_of(id) {
            Ok(native) => update_step(id, native, patch, map),
            Err(e) => failed(e),
        },
        CallView::Create(req) => match first_of(req.team_id, client.team_id) {
            Some(team) => create_step(client, req, team, map),
            None => failed(BackendErrorView::InvalidRequest(CREATE_TEAM_MSG@)),
        },
    }
}

/// The first step of a call that needs the team's workflow: where it is not
/// known yet, Linear is asked for it.
pub open spec fn discover(b: BackendView, call: CallView) -> StepView {
    match (b.client.team_id, b.status_map) {
        (None, _) => failed(BackendErrorView::InvalidRequest(DISCOVERY_TEAM_MSG@)),
        (Some(_), Some(map)) => act(b.client, call, map),
        (Some(team), None) => StepView::Send(
            team_states_request(team),
            PendingView::States(call),
        ),
    }
}

/// A step that needs a token, or the failure without one.
pub open spec fn authorized(b: BackendView, step: StepView) -> StepView {
    if b.client.has_token() {
        step
    } else {
        failed(BackendErrorView::Other(MISSING_TOKEN_MSG@))
    }
}

/// The first step of a creation. It needs the workflow only if it names a
/// status.
pub open spec fn begin_create(b: BackendView, req: CreateRequestView) -> StepView {
    if trimmed(req.title).len() == 0 {
        failed(BackendErrorView::InvalidRequest(EMPTY_TITLE_MSG@))
    } else if first_of(req.team_id, b.client.team_id) is None {
        failed(BackendErrorView::InvalidRequest(CREATE_TEAM_MSG@))
    } else if req.status is Some {
        discover(b, CallView::Create(req))
    } else {
        act(b.client, CallView::Create(req), empty_map())
    }
}

/// Whether a creation has a token, a title and a team, and names labels. It
/// goes on without them.
pub open spec fn labels_dropped(b: BackendView, req: CreateRequestView) -> bool {
    &&& b.client.has_token()
    &&& trimmed(req.title).len() > 0
    &&& first_of(req.team_id, b.client.team_id) is Some
    &&& req.labels.len() > 0
}

/// The first step of a call on one subject. An id that is not Linear's is
/// rejected before anything else.
pub open spec fn begin_on(b: BackendView, id: Seq<char>, call: CallView) -> StepView {
    match native_id_of(id) {
        Ok(_) => authorized(b, discover(b, call)),
        Err(e) => failed(e),
    }
}

/// The first step of a call.
pub open spec fn begin(b: BackendView, call: CallView) -> StepView {
    match call {
        CallView::List(_) => authorized(b, discover(b, call)),
        CallView::Get(id) => begin_on(b, id, call),
        CallView::Update(id, _) => begin_on(b, id, call),
        CallView::Create(req) => authorized(b, begin_create(b, req)),
    }
}

/// The first step of a health check.
pub open spec fn begin_health(b: BackendView) -> StepView {
    if b.client.has_token() {
        StepView::Send(health_request(), PendingView::Health)
    } else {
        StepView::Done(Ok(ReplyView::Health(unhealthy(HEALTH_MISSING_TOKEN@))))
    }
}

/// The verdict on a backend that is not fit for work.
pub open spec fn unhealthy(reason: Seq<char>) -> HealthView {
    HealthView {
        status: HealthStatus::Unhealthy,
        uptime_ms: None,
        memory_usage_bytes: None,
        last_error: Some(reason),
    }
}

/// The verdict after a response to the health check's query.
pub open spec fn health_of(response: ResponseView) -> HealthView {
    if response.errors.len() > 0 {
        unhealthy(joined(response.errors, "; "@))
    } else if !response.succeeded() {
        unhealthy("linear returned HTTP "@ + status_text(response.status))
    } else {
        HealthView {
            status: HealthStatus::Healthy,
            uptime_ms: None,
            memory_usage_bytes: None,
            last_error: None,
        }
    }
}

/// The subjects of issues, or the first of them that has none.
pub open spec fn node_subjects(nodes: Seq<JsonView>, map: StatusMapView) -> Result<
    Seq<SubjectView>,
    BackendErrorView,
>
    decreases nodes.len(),
{
    if nodes.len() == 0 {
        Ok(Seq::empty())
    } else {
        match node_subjects(nodes.drop_last(), map) {
            Err(e) => Err(e),
            Ok(before) => match issue_subject(nodes.last(), map) {
                Err(e) => Err(e),
                Ok(subject) => Ok(before.push(subject)),
            },
        }
    }
}

/// Where the next page starts, if there is one.
pub open spec fn next_cursor_of(issues: JsonView) -> Option<Seq<char>> {
    match member(issues, "pageInfo"@) {
        Some(info) if is_true(member(info, "hasNextPage"@)) => text_member(info, "endCursor"@),
        _ => None,
    }
}

/// The page in the data of a response.
pub open spec fn page_of(data: JsonView, map: StatusMapView) -> Result<
    SubjectListView,
    BackendErrorView,
> {
    match member(data, "issues"@) {
        None => Err(BackendErrorView::Other("missing `issues` in response"@)),
        Some(issues) => match member(issues, "nodes"@) {
            Some(JsonView::Array(nodes)) => match node_subjects(nodes, map) {
                Err(e) => Err(e),
                Ok(subjects) => Ok(
                    SubjectListView { subjects, next_cursor: next_cursor_of(issues) },
                ),
            },
            _ => Err(BackendErrorView::Other("missing `issues.nodes` array"@)),
        },
    }
}

/// The call brought the subject of an issue.
pub open spec fn subject_step(issue: JsonView, map: StatusMapView) -> StepView {
    match issue_subject(issue, map) {
        Ok(subject) => StepView::Done(Ok(ReplyView::Subject(subject))),
        Err(e) => failed(e),
    }
}

/// What follows once the issue is there: the comment, if there is one, else
/// the end.
pub open spec fn comment_step(
    id: Seq<char>,
    issue: JsonView,
    comment: Option<Seq<char>>,
    map: StatusMapView,
) -> StepView {
    match non_blank(comment) {
        None => subject_step(issue, map),
        Some(body) => match text_member(issue, "id"@) {
            Some(uuid) => StepView::Send(
                comment_request(uuid, body),
                PendingView::Comment(id, issue),
            ),
            None => failed(
                BackendErrorView::Other(
                    "linear response for "@ + id
                        + " is missing issue.id; cannot post comment"@,
                ),
            ),
        },
    }
}

/// What follows once the answer holds an issue, or does not.
pub open spec fn issue_step(
    id: Seq<char>,
    issue: Option<JsonView>,
    comment: Option<Seq<char>>,
    map: StatusMapView,
) -> StepView {
    match non_null(issue) {
        Some(found) => comment_step(id, found, comment, map),
        None => failed(BackendErrorView::NotFound(id)),
    }
}

/// What follows the data that answered an `issueUpdate`.
pub open spec fn updated_step(
    id: Seq<char>,
    data: JsonView,
    comment: Option<Seq<char>>,
    map: StatusMapView,
) -> StepView {
    match member(data, "issueUpdate"@) {
        None => failed(BackendErrorView::Other("missing `issueUpdate` in response"@)),
        Some(payload) => if !is_true(member(payload, "success"@)) {
            failed(
                BackendErrorView::InvalidRequest(
                    "linear rejected update for "@ + id + ": "@ + json_text(payload),
                ),
            )
        } else {
            issue_step(id, member(payload, "issue"@), comment, map)
        },
    }
}

/// What follows the data that answered a `commentCreate`.
pub open spec fn commented_step(
    id: Seq<char>,
    data: JsonView,
    issue: JsonView,
    map: StatusMapView,
) -> StepView {
    if !is_true(member2(data, "commentCreate"@, "success"@)) {
        failed(
            BackendErrorView::InvalidRequest(
                "linear rejected comment for "@ + id + ": "@ + json_text(data),
            ),
        )
    } else {
        subject_step(issue, map)
    }
}

/// What follows the data that answered an `issueCreate`.
pub open spec fn created_step(data: JsonView, map: StatusMapView) -> StepView {
    match member(data, "issueCreate"@) {
        None => failed(BackendErrorView::Other("missing `issueCreate` in response"@)),
        Some(payload) => if !is_true(member(payload, "success"@)) {
            failed(
                BackendErrorView::InvalidRequest(
                    "linear rejected issue create: "@ + json_text(payload),
                ),
            )
        } else {
            match non_null(member(payload, "issue"@)) {
                Some(issue) => subject_step(issue, map),
                None => failed(BackendErrorView::Other("issueCreate returned no issue node"@)),
            }
        },
    }
}

/// What follows the data that answered the query for a page.
pub open spec fn page_step(data: JsonView, map: StatusMapView) -> StepView {
    match page_of(data, map) {
        Ok(page) => StepView::Done(Ok(ReplyView::Page(page))),
        Err(e) => failed(e),
    }
}

/// What follows the answer to the query for the workflow.
pub open spec fn states_step(
    call: CallView,
    outcome: Result<ResponseView, ClientError>,
) -> StepView {
    match outcome {
        Err(_) => failed(BackendErrorView::Unavailable(STATES_QUERY_MSG@)),
        Ok(response) => match state_nodes(response) {
            Err(message) => failed(BackendErrorView::Unavailable(message)),
            Ok(nodes) => StepView::Decode(nodes, call),
        },
    }
}

/// What follows the answer to the health check's query.
pub open spec fn health_step(outcome: Result<ResponseView, ClientError>) -> StepView {
    match outcome {
        Err(e) => failed(BackendErrorView::Unavailable(e.spec_message())),
        Ok(response) => StepView::Done(Ok(ReplyView::Health(health_of(response)))),
    }
}

/// The data that came back for a request.
pub open spec fn data_of(outcome: Result<ResponseView, ClientError>) -> Result<
    JsonView,
    BackendErrorView,
> {
    match outcome {
        Err(e) => Err(BackendErrorView::Unavailable(e.spec_message())),
        Ok(response) => match response.outcome() {
            Err(message) => Err(graphql_error(message)),
            Ok(data) => Ok(data),
        },
    }
}

/// The workflow that a backend goes by: the team's, or none while that is not
/// known.
pub open spec fn known_map(b: BackendView) -> StatusMapView {
    match b.status_map {
        Some(map) => map,
        None => empty_map(),
    }
}

/// What follows once a request was answered or has failed.
pub open spec fn after_reply(
    b: BackendView,
    pending: PendingView,
    outcome: Result<ResponseView, ClientError>,
) -> StepView {
    match (pending, data_of(outcome)) {
        (PendingView::States(call), _) => states_step(call, outcome),
        (PendingView::Health, _) => health_step(outcome),
        (_, Err(e)) => failed(e),
        (PendingView::Page, Ok(data)) => page_step(data, known_map(b)),
        (PendingView::Issue(id, comment), Ok(data)) => issue_step(
            id,
            member(data, "issue"@),
            comment,
            known_map(b),
        ),
        (PendingView::Updated(id, comment), Ok(data)) => updated_step(
            id,
            data,
            comment,
            known_map(b),
        ),
        (PendingView::Comment(id, issue), Ok(data)) => commented_step(
            id,
            data,
            issue,
            known_map(b),
        ),
        (PendingView::Created(discovered), Ok(data)) => created_step(
            data,
            if discovered {
                known_map(b)
            } else {
                empty_map()
            },
        ),
    }
}

/// What a response, or the failure to get one, says.
pub open spec fn outcome_view(outcome: Result<GraphQlResponse, ClientError>) -> Result<
    ResponseView,
    ClientError,
> {
    match outcome {
        Ok(response) => Ok(response@),
        Err(e) => Err(e),
    }
}

fn fail(error: BackendError) -> (step: Step)
    ensures
        step@ == failed(error@),
{
    Step::Done(Err(error))
}

/// Whether a member is there and is `true`.
fn truthy(value: Option<&Json>) -> (yes: bool)
    ensures
        yes == is_true(opt_member(value)),
{
    match value {
        Some(j) => match j.as_bool() {
            Some(b) => b,
            None => false,
        },
        None => false,
    }
}

/// A member that is there and is not `null`.
fn present<'a>(value: Option<&'a Json>) -> (found: Option<&'a Json>)
    ensures
        opt_member(found) == non_null(opt_member(value)),
{
    match value {
        Some(j) => if j.is_null() {
            None
        } else {
            Some(j)
        },
        None => None,
    }
}

fn subject_reply(issue: &Json, map: &StatusMap) -> (step: Step)
    ensures
        step@ == subject_step(issue@, map@),
{
    match issue_to_subject(issue, map) {
        Ok(subject) => Step::Done(Ok(Reply::Subject(subject))),
        Err(e) => fail(e),
    }
}

fn comment_or_reply(
    id: SubjectId,
    issue: &Json,
    comment: Option<String>,
    map: &StatusMap,
) -> (step: Step)
    ensures
        step@ == comment_step(id@, issue@, opt_text(comment), map@),
{
    let body = match keep_non_blank(opt_str(&comment)) {
        Some(body) => body,
        None => {
            return subject_reply(issue, map);
        },
    };
    let uuid = match issue.get("id") {
        Some(j) => j.as_str(),
        None => None,
    };
    match uuid {
        Some(uuid) => {
            let input = Json::object2(
                "issueId",
                Json::text(uuid),
                "body",
                Json::text(body.as_str()),
            );
            let request = GraphQlRequest {
                query: comment_mutation().to_owned(),
                variables: Json::object1("input", input),
            };
            Step::Send(request, Pending::Comment(id, issue.clone()))
        },
        None => {
            let mut message = "linear response for ".to_owned();
            message.append(id.as_str());
            message.append(" is missing issue.id; cannot post comment");
            fail(BackendError::Other(message))
        },
    }
}

fn found_issue(
    id: SubjectId,
    issue: Option<&Json>,
    comment: Option<String>,
    map: &StatusMap,
) -> (step: Step)
    ensures
        step@ == issue_step(id@, opt_member(issue), opt_text(comment), map@),
{
    match present(issue) {
        Some(found) => comment_or_reply(id, found, comment, map),
        None => fail(BackendError::NotFound(id.as_str().to_owned())),
    }
}

fn after_update(
    id: SubjectId,
    data: &Json,
    comment: Option<String>,
    map: &StatusMap,
) -> (step: Step)
    ensures
        step@ == updated_step(id@, data@, opt_text(comment), map@),
{
    match data.get("issueUpdate") {
        None => fail(BackendError::Other("missing `issueUpdate` in response".to_owned())),
        Some(payload) => {
            if !truthy(payload.get("success")) {
                let mut message = "linear rejected update for ".to_owned();
                message.append(id.as_str());
                message.append(": ");
                message.append(payload.to_text().as_str());
                return fail(BackendError::InvalidRequest(message));
            }
            found_issue(id, payload.get("issue"), comment, map)
        },
    }
}

fn after_comment(id: &SubjectId, data: &Json, issue: &Json, map: &StatusMap) -> (step: Step)
    ensures
        step@ == commented_step(id@, data@, issue@, map@),
{
    let accepted = match data.get("commentCreate") {
        Some(payload) => truthy(payload.get("success")),
        None => false,
    };
    if !accepted {
        let mut message = "linear rejected comment for ".to_owned();
        message.append(id.as_str());
        message.append(": ");
        message.append(data.to_text().as_str());
        return fail(BackendError::InvalidRequest(message));
    }
    subject_reply(issue, map)
}

fn after_create(data: &Json, map: &StatusMap) -> (step: Step)
    ensures
        step@ == created_step(data@, map@),
{
    match data.get("issueCreate") {
        None => fail(BackendError::Other("missing `issueCreate` in response".to_owned())),
        Some(payload) => {
            if !truthy(payload.get("success")) {
                let mut message = "linear rejected issue create: ".to_owned();
                message.append(payload.to_text().as_str());
                return fail(BackendError::InvalidRequest(message));
            }
            match present(payload.get("issue")) {
                Some(issue) => subject_reply(issue, map),
                None => fail(BackendError::Other("issueCreate returned no issue node".to_owned())),
            }
        },
    }
}

/// An issue without a subject spoils the page.
proof fn lemma_node_subjects_prefix(nodes: Seq<JsonView>, map: StatusMapView, n: int)
    requires
        0 <= n <= nodes.len(),
        node_subjects(nodes.take(n), map) is Err,
    ensures
        node_subjects(nodes, map) == node_subjects(nodes.take(n), map),
    decreases nodes.len() - n,
{
    if n < nodes.len() {
        assert(nodes.take(n + 1).drop_last() =~= nodes.take(n));
        lemma_node_subjects_prefix(nodes, map, n + 1);
    } else {
        assert(nodes.take(n) =~= nodes);
    }
}

fn read_subjects(nodes: &Vec<Json>, map: &StatusMap) -> (subjects: Result<
    Vec<Subject>,
    BackendError,
>)
    ensures
        match subjects {
            Ok(list) => node_subjects(array_view(nodes@), map@) == Ok::<
                Seq<SubjectView>,
                BackendErrorView,
            >(subject_views(list@)),
            Err(e) => node_subjects(array_view(nodes@), map@) == Err::<
                Seq<SubjectView>,
                BackendErrorView,
            >(e@),
        },
{
    let ghost views = array_view(nodes@);
    proof {
        lemma_array_view(nodes@);
    }
    let mut subjects: Vec<Subject> = Vec::new();
    assert(subject_views(subjects@) =~= Seq::empty());
    let mut i: usize = 0;
    while i < nodes.len()
        invariant
            i <= nodes.len(),
            views == array_view(nodes@),
            views.len() == nodes@.len(),
            forall|k: int| 0 <= k < nodes@.len() ==> #[trigger] views[k] == json_view(nodes@[k]),
            node_subjects(views.take(i as int), map@) == Ok::<Seq<SubjectView>, BackendErrorView>(
                subject_views(subjects@),
            ),
        decreases nodes.len() - i,
    {
        assert(views.take(i + 1).drop_last() =~= views.take(i as int));
        assert(views.take(i + 1).last() == json_view(nodes@[i as int]));
        match issue_to_subject(&nodes[i], map) {
            Ok(subject) => {
                let ghost before = subjects@;
                subjects.push(subject);
                assert(subject_views(subjects@) =~= subject_views(before).push(subject@));
            },
            Err(e) => {
                proof {
                    lemma_node_subjects_prefix(views, map@, i + 1);
                }
                return Err(e);
            },
        }
        i = i + 1;
    }
    assert(views.take(i as int) =~= views);
    Ok(subjects)
}

fn next_cursor(issues: &Json) -> (cursor: Option<String>)
    ensures
        opt_text(cursor) == next_cursor_of(issues@),
{
    match issues.get("pageInfo") {
        Some(info) => {
            if !truthy(info.get("hasNextPage")) {
                return None;
            }
            match info.get("endCursor") {
                Some(j) => match j.as_str() {
                    Some(cursor) => Some(cursor.to_owned()),
                    None => None,
                },
                None => None,
            }
        },
        None => None,
    }
}

fn after_page(data: &Json, map: &StatusMap) -> (step: Step)
    ensures
        step@ == page_step(data@, map@),
{
    let issues = match data.get("issues") {
        Some(issues) => issues,
        None => {
            return fail(BackendError::Other("missing `issues` in response".to_owned()));
        },
    };
    let nodes = match issues.get("nodes") {
        Some(j) => j.as_array(),
        None => None,
    };
    match nodes {
        Some(nodes) => match read_subjects(nodes, map) {
            Ok(subjects) => Step::Done(
                Ok(Reply::Page(SubjectList { subjects, next_cursor: next_cursor(issues) })),
            ),
            Err(e) => fail(e),
        },
        None => fail(BackendError::Other("missing `issues.nodes` array".to_owned())),
    }
}

fn unhealthy_result(reason: String) -> (health: HealthCheckResult)
    ensures
        health@ == unhealthy(reason@),
{
    HealthCheckResult {
        status: HealthStatus::Unhealthy,
        uptime_ms: None,
        memory_usage_bytes: None,
        last_error: Some(reason),
    }
}

fn read_health(response: &GraphQlResponse) -> (health: HealthCheckResult)
    ensures
        health@ == health_of(response@),
{
    if response.errors.len() > 0 {
        unhealthy_result(response.error_text())
    } else if !response.status.is_success() {
        let mut message = "linear returned HTTP ".to_owned();
        message.append(response.status.to_text().as_str());
        unhealthy_result(message)
    } else {
        HealthCheckResult {
            status: HealthStatus::Healthy,
            uptime_ms: None,
            memory_usage_bytes: None,
            last_error: None,
        }
    }
}

fn after_health(outcome: Result<GraphQlResponse, ClientError>) -> (step: Step)
    ensures
        step@ == health_step(outcome_view(outcome)),
{
    match outcome {
        Ok(response) => Step::Done(Ok(Reply::Health(read_health(&response)))),
        Err(e) => fail(BackendError::Unavailable(e.message().to_owned())),
    }
}

fn after_states(call: Call, outcome: Result<GraphQlResponse, ClientError>) -> (step: Step)
    ensures
        step@ == states_step(call@, outcome_view(outcome)),
{
    match outcome {
        Ok(response) => match workflow_state_nodes(response) {
            Ok(nodes) => Step::Decode(nodes, call),
            Err(message) => fail(BackendError::Unavailable(message)),
        },
        Err(_) => fail(BackendError::Unavailable(STATES_QUERY_MSG.to_owned())),
    }
}

fn read_data(outcome: Result<GraphQlResponse, ClientError>) -> (data: Result<Json, BackendError>)
    ensures
        match data {
            Ok(j) => data_of(outcome_view(outcome)) == Ok::<JsonView, BackendErrorView>(j@),
            Err(e) => data_of(outcome_view(outcome)) == Err::<JsonView, BackendErrorView>(e@),
        },
{
    match outcome {
        Ok(response) => match response.into_data() {
            Ok(data) => Ok(data),
            Err(message) => Err(map_graphql_err(message)),
        },
        Err(e) => Err(BackendError::Unavailable(e.message().to_owned())),
    }
}

/// The fields that subjects of this backend have of their own.
pub open spec fn custom_field_views() -> Seq<CustomFieldView> {
    seq![
        CustomFieldView { key: "priority"@, kind: CustomFieldKind::Number, values: None },
        CustomFieldView { key: "linear_state_name"@, kind: CustomFieldKind::String, values: None },
        CustomFieldView {
            key: "linear_state_type"@,
            kind: CustomFieldKind::Enum,
            values: Some(
                seq![
                    "backlog"@,
                    "unstarted"@,
                    "started"@,
                    "completed"@,
                    "canceled"@,
                    "triage"@,
                ],
            ),
        },
        CustomFieldView { key: "linear_uuid"@, kind: CustomFieldKind::String, values: None },
    ]
}

/// What the backend says of itself. The names of the statuses are those of the
/// team's workflow once it is known, before that the ones that Linear starts a
/// team with.
pub open spec fn schema_of(b: BackendView) -> SubjectSchemaView {
    SubjectSchemaView {
        kinds: seq![SUBJECT_KIND@],
        status_values: seq![
            SubjectStatus::Ready,
            SubjectStatus::InProgress,
            SubjectStatus::Blocked,
            SubjectStatus::Done,
            SubjectStatus::Cancelled,
        ],
        supports_watch: false,
        supports_create: true,
        supports_delete: false,
        supports_pagination: true,
        native_status_values: match b.status_map {
            Some(map) => map.names,
            None => fallback_native_statuses(),
        },
        status_dispatch_hints: Seq::empty(),
        custom_fields: custom_field_views(),
    }
}

fn plain_field(key: &str, kind: CustomFieldKind) -> (field: CustomFieldSpec)
    ensures
        field@ == (CustomFieldView { key: key@, kind, values: None }),
{
    CustomFieldSpec { key: key.to_owned(), kind, values: None }
}

fn custom_fields() -> (fields: Vec<CustomFieldSpec>)
    ensures
        fields@.map_values(|f: CustomFieldSpec| f@) == custom_field_views(),
{
    let mut types: Vec<String> = Vec::new();
    types.push("backlog".to_owned());
    types.push("unstarted".to_owned());
    types.push("started".to_owned());
    types.push("completed".to_owned());
    types.push("canceled".to_owned());
    types.push("triage".to_owned());
    assert(texts(types@) =~= custom_field_views()[2].values->0);
    let mut fields: Vec<CustomFieldSpec> = Vec::new();
    fields.push(plain_field("priority", CustomFieldKind::Number));
    fields.push(plain_field("linear_state_name", CustomFieldKind::String));
    fields.push(
        CustomFieldSpec {
            key: "linear_state_type".to_owned(),
            kind: CustomFieldKind::Enum,
            values: Some(types),
        },
    );
    fields.push(plain_field("linear_uuid", CustomFieldKind::String));
    assert(fields@.map_values(|f: CustomFieldSpec| f@) =~= custom_field_views());
    fields
}

/// The request for a page of issues.
fn build_list_request(
    team_id: Option<&str>,
    filter: &SubjectFilter,
    map: &StatusMap,
) -> (request: GraphQlRequest)
    ensures
        request@ == list_request(
            match team_id {
                Some(id) => Some(id@),
                None => None,
            },
            filter@,
            map@,
        ),
{
    let limit: u64 = match filter.limit {
        Some(n) => if n < 1 {
            1
        } else if n > 100 {
            100
        } else {
            n as u64
        },
        None => 50,
    };
    let after = match &filter.cursor {
        Some(cursor) => Json::text(cursor.as_str()),
        None => Json::Null,
    };
    let mut variables = no_members();
    set_member(&mut variables, "filter", build_issue_filter(team_id, filter, map));
    set_member(&mut variables, "first", Json::from_u64(limit));
    set_member(&mut variables, "after", after);
    GraphQlRequest { query: list_query(), variables: Json::Object(variables) }
}

/// The request for one issue.
fn build_get_request(native: &str) -> (request: GraphQlRequest)
    ensures
        request@ == get_request(native@),
{
    GraphQlRequest { query: get_query(), variables: Json::object1("id", Json::text(native)) }
}

/// The backend for one Linear team.
#[derive(Debug)]
pub struct LinearBackend {
    client: LinearClient,
    overrides: StringMap<SubjectStatus>,
    status_map: Option<StatusMap>,
}

impl View for LinearBackend {
    type V = BackendView;

    closed spec fn view(&self) -> BackendView {
        BackendView {
            client: self.client@,
            overrides: self.overrides@,
            status_map: match self.status_map {
                Some(map) => Some(map@),
                None => None,
            },
        }
    }
}

impl LinearBackend {
    /// The backend of a configuration. The token has to be fit for a header;
    /// whether Linear accepts it is for [`Self::health`] to find out.
    pub fn new(config: LinearConfig) -> (backend: Result<Self, ClientError>)
        ensures
            match backend {
                Ok(b) => b@ == backend_of(config@) && token_safe(config@) && b@ == (BackendView {
                    client: client_of(config@),
                    overrides: config@.status_overrides,
                    status_map: None,
                }),
                Err(e) => !token_safe(config@) && e == ClientError::InvalidToken,
            },
    {
        match LinearClient::new(&config) {
            Ok(client) => Ok(
                LinearBackend { client, overrides: config.status_overrides, status_map: None },
            ),
            Err(e) => Err(e),
        }
    }

    /// Where requests go and what they are about.
    pub fn client(&self) -> (client: &LinearClient)
        ensures
            client@ == self@.client,
    {
        &self.client
    }

    fn act(&self, call: Call, map: &StatusMap) -> (step: Step)
        ensures
            step@ == act(self@.client, call@, map@),
    {
        match call {
            Call::List(filter) => Step::Send(
                build_list_request(self.client.team_id(), &filter, map),
                Pending::Page,
            ),
            Call::Get(id) => match native_id(&id) {
                Ok(native) => Step::Send(
                    build_get_request(native.as_str()),
                    Pending::Issue(id, None),
                ),
                Err(e) => fail(e),
            },
            Call::Update(id, patch) => match native_id(&id) {
                Ok(native) => {
                    let input = match build_update_input(&patch, map) {
                        Ok(input) => input,
                        Err(e) => {
                            return fail(e);
                        },
                    };
                    proof {
                        if input.entries@.len() > 0 {
                            let key = input.entries@.last().0@;
                            assert(object_view(input.entries@).contains_key(key));
                        }
                    }
                    if input.entries.len() == 0 {
                        Step::Send(
                            build_get_request(native.as_str()),
                            Pending::Issue(id, patch.comment),
                        )
                    } else {
                        let request = GraphQlRequest {
                            query: update_mutation(),
                            variables: Json::object2(
                                "id",
                                Json::text(native.as_str()),
                                "input",
                                Json::Object(input),
                            ),
                        };
                        Step::Send(request, Pending::Updated(id, patch.comment))
                    }
                },
                Err(e) => fail(e),
            },
            Call::Create(req) => {
                let team = match &req.team_id {
                    Some(team) => Some(team.as_str()),
                    None => self.client.team_id(),
                };
                match team {
                    Some(team) => match build_create_input(
                        &req,
                        team,
                        self.client.project_id(),
                        map,
                    ) {
                        Ok(input) => {
                            let request = GraphQlRequest {
                                query: create_mutation(),
                                variables: Json::object1("input", Json::Object(input)),
                            };
                            Step::Send(request, Pending::Created(req.status.is_some()))
                        },
                        Err(e) => fail(e),
                    },
                    None => fail(BackendError::InvalidRequest(CREATE_TEAM_MSG.to_owned())),
                }
            },
        }
    }

    fn discover(&self, call: Call) -> (step: Step)
        ensures
            step@ == discover(self@, call@),
    {
        let team = match self.client.team_id() {
            Some(team) => team,
            None => {
                return fail(BackendError::InvalidRequest(DISCOVERY_TEAM_MSG.to_owned()));
            },
        };
        match &self.status_map {
            Some(map) => self.act(call, map),
            None => Step::Send(self.client.fetch_workflow_states(team), Pending::States(call)),
        }
    }

    /// The first step of a call.
    pub fn proceed(&self, call: Call) -> (step: Step)
        ensures
            step@ == begin(self@, call@),
    {
        let id = match &call {
            Call::Get(id) => Some(id),
            Call::Update(id, _) => Some(id),
            _ => None,
        };
        if let Some(id) = id {
            if let Err(e) = native_id(id) {
                return fail(e);
            }
        }
        if !self.client.has_token() {
            return fail(BackendError::Other(MISSING_TOKEN_MSG.to_owned()));
        }
        if let Call::Create(req) = &call {
            let title = trim(req.title.as_str());
            if title.as_str().is_empty() {
                return fail(BackendError::InvalidRequest(EMPTY_TITLE_MSG.to_owned()));
            }
            if req.team_id.is_none() && self.client.team_id().is_none() {
                return fail(BackendError::InvalidRequest(CREATE_TEAM_MSG.to_owned()));
            }
            if req.status.is_none() {
                let map = StatusMap::default();
                return self.act(call, &map);
            }
        }
        self.discover(call)
    }

    /// Lists the subjects that pass a filter, page by page.
    pub fn list(&self, filter: SubjectFilter) -> (step: Step)
        ensures
            step@ == begin(self@, CallView::List(filter@)),
    {
        self.proceed(Call::List(filter))
    }

    /// Gets one subject.
    pub fn get(&self, id: &SubjectId) -> (step: Step)
        ensures
            step@ == begin(self@, CallView::Get(id@)),
    {
        self.proceed(Call::Get(id.clone()))
    }

    /// Changes one subject. A comment is posted on its own, after the change.
    pub fn update(&self, id: &SubjectId, patch: SubjectPatch) -> (step: Step)
        ensures
            step@ == begin(self@, CallView::Update(id@, patch@)),
    {
        self.proceed(Call::Update(id.clone(), patch))
    }

    /// Whether a creation is fit to go on and names labels, which it then goes
    /// on without.
    pub fn drops_labels(&self, req: &CreateRequest) -> (drops: bool)
        ensures
            drops == labels_dropped(self@, req@),
    {
        if !self.client.has_token() || trim(req.title.as_str()).as_str().is_empty() {
            return false;
        }
        assert(texts(req.labels@).len() == req.labels@.len());
        (req.team_id.is_some() || self.client.team_id().is_some()) && req.labels.len() > 0
    }

    /// Creates a subject.
    pub fn create(&self, req: CreateRequest) -> (step: Step)
        ensures
            step@ == begin(self@, CallView::Create(req@)),
    {
        self.proceed(Call::Create(req))
    }

    /// Checks whether Linear accepts the token. Without one the answer is
    /// there at once.
    pub fn health(&self) -> (step: Step)
        ensures
            step@ == begin_health(self@),
    {
        if !self.client.has_token() {
            return Step::Done(
                Ok(Reply::Health(unhealthy_result(HEALTH_MISSING_TOKEN.to_owned()))),
            );
        }
        let request = GraphQlRequest {
            query: HEALTH_QUERY.to_owned(),
            variables: Json::Object(no_members()),
        };
        Step::Send(request, Pending::Health)
    }

    /// What the backend can do and which values it uses.
    pub fn schema(&self) -> (schema: SubjectSchema)
        ensures
            schema@ == schema_of(self@),
    {
        let mut kinds: Vec<String> = Vec::new();
        kinds.push(SUBJECT_KIND.to_owned());
        assert(texts(kinds@) =~= seq![SUBJECT_KIND@]);
        let mut status_values: Vec<SubjectStatus> = Vec::new();
        status_values.push(SubjectStatus::Ready);
        status_values.push(SubjectStatus::InProgress);
        status_values.push(SubjectStatus::Blocked);
        status_values.push(SubjectStatus::Done);
        status_values.push(SubjectStatus::Cancelled);
        assert(status_values@ =~= schema_of(self@).status_values);
        let native_status_values = match &self.status_map {
            Some(map) => clone_texts(map.native_state_names()),
            None => fallback_statuses(),
        };
        SubjectSchema {
            kinds,
            status_values,
            supports_watch: false,
            supports_create: true,
            supports_delete: false,
            supports_pagination: true,
            native_status_values,
            status_dispatch_hints: Vec::new(),
            custom_fields: custom_fields(),
        }
    }

    /// Goes on with a call whose request was answered or has failed.
    pub fn resume(
        &self,
        pending: Pending,
        outcome: Result<GraphQlResponse, ClientError>,
    ) -> (step: Step)
        ensures
            step@ == after_reply(self@, pending@, outcome_view(outcome)),
    {
        let no_map = StatusMap::default();
        let known = match &self.status_map {
            Some(map) => map,
            None => &no_map,
        };
        match pending {
            Pending::States(call) => after_states(call, outcome),
            Pending::Health => after_health(outcome),
            Pending::Page => match read_data(outcome) {
                Ok(data) => after_page(&data, known),
                Err(e) => fail(e),
            },
            Pending::Issue(id, comment) => match read_data(outcome) {
                Ok(data) => found_issue(id, data.get("issue"), comment, known),
                Err(e) => fail(e),
            },
            Pending::Updated(id, comment) => match read_data(outcome) {
                Ok(data) => after_update(id, &data, comment, known),
                Err(e) => fail(e),
            },
            Pending::Comment(id, issue) => match read_data(outcome) {
                Ok(data) => after_comment(&id, &data, &issue, known),
                Err(e) => fail(e),
            },
            Pending::Created(discovered) => match read_data(outcome) {
                Ok(data) => after_create(
                    &data,
                    if discovered {
                        known
                    } else {
                        &no_map
                    },
                ),
                Err(e) => fail(e),
            },
        }
    }

    /// Takes a call up again that waits for the team's workflow. `states` is
    /// what the workflow's states decoded to, `None` where they did not. The
    /// workflow that is learnt first stays.
    pub fn resume_with_states(
        &mut self,
        call: Call,
        states: Option<Vec<LinearWorkflowState>>,
    ) -> (step: Step)
        ensures
            final(self)@ == with_states(
                old(self)@,
                match states {
                    Some(list) => Some(state_views(list@)),
                    None => None,
                },
            ),
            step@ == after_learning(
                old(self)@,
                call@,
                match states {
                    Some(list) => Some(state_views(list@)),
                    None => None,
                },
            ),
            step@ == (match states {
                Some(_) => begin(final(self)@, call@),
                None => failed(BackendErrorView::Unavailable(STATES_DECODE_MSG@)),
            }),
    {
        match states {
            Some(list) => {
                if self.status_map.is_none() {
                    self.status_map = Some(StatusMap::from_workflow_states(&list, &self.overrides));
                }
                self.proceed(call)
            },
            None => fail(BackendError::Unavailable(STATES_DECODE_MSG.to_owned())),
        }
    }
}

/// What follows once the states of the team's workflow were decoded, or did not
/// decode.
pub open spec fn after_learning(
    b: BackendView,
    call: CallView,
    states: Option<Seq<WorkflowStateView>>,
) -> StepView {
    match states {
        Some(_) => begin(with_states(b, states), call),
        None => failed(BackendErrorView::Unavailable(STATES_DECODE_MSG@)),
    }
}

/// What the backend of a configuration holds at first.
pub open spec fn backend_of(config: ConfigView) -> BackendView {
    BackendView {
        client: client_of(config),
        overrides: config.status_overrides,
        status_map: None,
    }
}

/// A backend that has learnt the states of the team's workflow, where it did
/// not know them yet.
pub open spec fn with_states(b: BackendView, states: Option<Seq<WorkflowStateView>>) -> BackendView {
    match (b.status_map, states) {
        (None, Some(list)) => BackendView {
            status_map: Some(workflow_map(list, b.overrides)),
            ..b
        },
        _ => b,
    }
}

}
