//! Requests to Linear's GraphQL endpoint and what comes back.

use vstd::prelude::*;

use crate::config::{ConfigView, LinearConfig};
use crate::json::{
    bytes_json, json_debug, json_text, member, member2, non_null, object1, object2, Json, JsonView,
};
use crate::text::{clone_opt, join, joined, opt_text, texts};

verus! {

/// The query for a team's workflow states.
pub const TEAM_STATES_QUERY: &'static str =
    r#"
            query AnimusTeamStates($teamId: String!) {
              team(id: $teamId) {
                states {
                  nodes { id name type position }
                }
              }
            }
        "#;

/// The sign bit of an IEEE 754 double.
pub const SIGN_BIT: u64 = 0x8000_0000_0000_0000;

/// The bits of positive infinity; a double whose magnitude is greater is NaN.
pub const INFINITY_BITS: u64 = 0x7ff0_0000_0000_0000;

/// A double without its sign.
pub open spec fn magnitude(bits: u64) -> int {
    if bits >= SIGN_BIT {
        bits - SIGN_BIT
    } else {
        bits as int
    }
}

/// A number in the order of the doubles, `None` for NaN. Doubles of one sign
/// are ordered as their bits are, and the two zeros are equal.
pub open spec fn double_rank(bits: u64) -> Option<int> {
    if magnitude(bits) > INFINITY_BITS {
        None
    } else if bits >= SIGN_BIT {
        Some(-magnitude(bits))
    } else {
        Some(magnitude(bits))
    }
}

/// Whether the double of rank `a` is less than that of rank `b`.
pub open spec fn position_lt(a: Option<int>, b: Option<int>) -> bool {
    match (a, b) {
        (Some(x), Some(y)) => x < y,
        _ => false,
    }
}

/// Whether the doubles of ranks `a` and `b` are equal; NaN equals nothing.
pub open spec fn position_eq(a: Option<int>, b: Option<int>) -> bool {
    a is Some && a == b
}

/// Where a state stands in its workflow: a double, held by its IEEE 754 bits.
#[derive(Clone, Copy, Debug)]
pub struct Position {
    /// The bits of the double.
    pub bits: u64,
}

impl View for Position {
    type V = Option<int>;

    open spec fn view(&self) -> Option<int> {
        double_rank(self.bits)
    }
}

impl Position {
    /// The position with these bits.
    pub fn from_bits(bits: u64) -> (position: Position)
        ensures
            position.bits == bits,
    {
        Position { bits }
    }

    fn size(self) -> (size: u64)
        ensures
            size == magnitude(self.bits),
    {
        if self.bits >= SIGN_BIT {
            self.bits - SIGN_BIT
        } else {
            self.bits
        }
    }

    /// Whether this position equals `other`, as doubles compare.
    pub fn equals(&self, other: &Position) -> (same: bool)
        ensures
            same == position_eq(self@, other@),
    {
        let a: u64 = self.size();
        let b: u64 = other.size();
        a <= INFINITY_BITS && a == b && (a == 0 || self.bits == other.bits)
    }

    /// Whether this position is less than `other`, as doubles compare.
    pub fn precedes(&self, other: &Position) -> (less: bool)
        ensures
            less == position_lt(self@, other@),
    {
        let a: u64 = self.size();
        let b: u64 = other.size();
        if a > INFINITY_BITS || b > INFINITY_BITS {
            false
        } else if self.bits >= SIGN_BIT {
            if other.bits >= SIGN_BIT {
                a > b
            } else {
                a > 0 || b > 0
            }
        } else {
            other.bits < SIGN_BIT && a < b
        }
    }
}

impl PartialEq for Position {
    fn eq(&self, other: &Self) -> (same: bool) {
        self.equals(other)
    }
}

impl vstd::std_specs::cmp::PartialEqSpecImpl for Position {
    open spec fn obeys_eq_spec() -> bool {
        true
    }

    open spec fn eq_spec(&self, other: &Self) -> bool {
        position_eq(self@, other@)
    }
}

/// One row of Linear's `team.states.nodes`.
#[derive(Clone, Debug, PartialEq)]
pub struct LinearWorkflowState {
    /// Linear's UUID of the state.
    pub id: String,
    /// The name that the team gave the state.
    pub name: String,
    /// The category, which does not change with the name: `triage`,
    /// `backlog`, `unstarted`, `started`, `completed` or `cancelled`.
    pub state_type: String,
    /// Linear sorts the states by this; lower comes first.
    pub position: Position,
}

/// What a [`LinearWorkflowState`] says.
pub struct WorkflowStateView {
    pub id: Seq<char>,
    pub name: Seq<char>,
    pub state_type: Seq<char>,
    pub position: Option<int>,
}

impl View for LinearWorkflowState {
    type V = WorkflowStateView;

    open spec fn view(&self) -> WorkflowStateView {
        WorkflowStateView {
            id: self.id@,
            name: self.name@,
            state_type: self.state_type@,
            position: self.position@,
        }
    }
}

/// What workflow states say.
pub open spec fn state_views(states: Seq<LinearWorkflowState>) -> Seq<WorkflowStateView> {
    states.map_values(|s: LinearWorkflowState| s@)
}

/// Why a request brought no GraphQL response, or a client could not be made.
#[derive(Clone, Copy, Debug, PartialEq, Eq, Structural)]
pub enum ClientError {
    /// The API token cannot stand in an HTTP header.
    InvalidToken,
    /// The request did not get through.
    Transport,
    /// The response was not JSON.
    NotJson,
}

impl ClientError {
    /// The error in words.
    pub open spec fn spec_message(self) -> Seq<char> {
        match self {
            ClientError::InvalidToken => "LINEAR_API_TOKEN contains characters that aren't valid in a header"@,
            ClientError::Transport => "linear graphql request failed at the transport layer"@,
            ClientError::NotJson => "linear response was not valid JSON"@,
        }
    }

    /// The error in words.
    pub fn message(self) -> (message: &'static str)
        ensures
            message@ == self.spec_message(),
    {
        match self {
            ClientError::InvalidToken => "LINEAR_API_TOKEN contains characters that aren't valid in a header",
            ClientError::Transport => "linear graphql request failed at the transport layer",
            ClientError::NotJson => "linear response was not valid JSON",
        }
    }
}

/// How an HTTP status reads: the code and its canonical reason.
pub uninterp spec fn status_text(code: u16) -> Seq<char>;

/// The `Display` text of the `reqwest::StatusCode` with this code, which is
/// one from 100 to 999.
#[verifier::external_body]
fn status_display(code: u16) -> (text: String)
    requires
        100 <= code <= 999,
    ensures
        text@ == status_text(code),
{
    reqwest::StatusCode::from_u16(code).unwrap().to_string()
}

/// An HTTP status code.
#[derive(Clone, Copy, Debug, PartialEq, Eq)]
pub struct HttpStatus {
    code: u16,
}

impl View for HttpStatus {
    type V = u16;

    closed spec fn view(&self) -> u16 {
        self.code
    }
}

impl HttpStatus {
    #[verifier::type_invariant]
    spec fn valid(self) -> bool {
        100 <= self.code <= 999
    }

    /// The status with this code, where it has three digits.
    pub fn new(code: u16) -> (status: Option<HttpStatus>)
        ensures
            match status {
                Some(s) => 100 <= code <= 999 && s@ == code,
                None => !(100 <= code <= 999),
            },
    {
        if 100 <= code && code <= 999 {
            Some(HttpStatus { code })
        } else {
            None
        }
    }

    /// Whether the request succeeded.
    pub fn is_success(&self) -> (yes: bool)
        ensures
            yes == (200 <= self@ < 300),
    {
        200 <= self.code && self.code < 300
    }

    /// The code and its canonical reason.
    pub fn to_text(&self) -> (text: String)
        ensures
            text@ == status_text(self@),
    {
        proof {
            use_type_invariant(self);
        }
        status_display(self.code)
    }
}

/// One entry of a response's `errors`.
#[derive(Clone, Debug)]
pub struct GraphQlError {
    /// Description for humans.
    pub message: String,
    /// Structured detail.
    pub extensions: Option<Json>,
}

/// The messages of errors.
pub open spec fn error_messages(errors: Seq<GraphQlError>) -> Seq<Seq<char>> {
    errors.map_values(|e: GraphQlError| e.message@)
}

/// What an optional document says.
pub open spec fn opt_json(j: Option<Json>) -> Option<JsonView> {
    match j {
        Some(v) => Some(v@),
        None => None,
    }
}

/// What came back for one GraphQL request.
#[derive(Debug)]
pub struct GraphQlResponse {
    /// HTTP status.
    pub status: HttpStatus,
    /// The `data` of the response, if there is any.
    pub data: Option<Json>,
    /// The `errors` of the response.
    pub errors: Vec<GraphQlError>,
}

/// What a [`GraphQlResponse`] says.
pub struct ResponseView {
    pub status: u16,
    pub data: Option<JsonView>,
    pub errors: Seq<Seq<char>>,
}

impl View for GraphQlResponse {
    type V = ResponseView;

    open spec fn view(&self) -> ResponseView {
        ResponseView {
            status: self.status@,
            data: opt_json(self.data),
            errors: error_messages(self.errors@),
        }
    }
}

/// How `{:?}` shows an optional document.
pub open spec fn opt_debug(data: Option<JsonView>) -> Seq<char> {
    match data {
        Some(j) => "Some("@ + json_debug(j) + ")"@,
        None => "None"@,
    }
}

impl ResponseView {
    /// Whether the HTTP status says that the request succeeded.
    pub open spec fn succeeded(self) -> bool {
        200 <= self.status < 300
    }

    /// The data of a response that succeeded, else what went wrong. GraphQL
    /// errors come before the HTTP status, and that before missing data.
    pub open spec fn outcome(self) -> Result<JsonView, Seq<char>> {
        if self.errors.len() > 0 {
            Err("linear graphql errors: "@ + joined(self.errors, "; "@))
        } else if !self.succeeded() {
            Err("linear http "@ + status_text(self.status) + ": "@ + opt_debug(self.data))
        } else {
            match self.data {
                Some(j) => Ok(j),
                None => Err("linear response missing `data` field"@),
            }
        }
    }
}

/// What the response with this status, body and error messages says.
pub open spec fn response_of(status: u16, body: JsonView, messages: Seq<Seq<char>>) -> ResponseView {
    ResponseView { status, data: non_null(member(body, "data"@)), errors: messages }
}

impl GraphQlResponse {
    /// The response with this status and body. `errors` is what the body's
    /// `errors` decode to, `None` where there are none or they do not decode;
    /// a `data` of `null` counts as none.
    pub fn from_reply(
        status: HttpStatus,
        body: &Json,
        errors: Option<Vec<GraphQlError>>,
    ) -> (response: GraphQlResponse)
        ensures
            response.status == status,
            opt_json(response.data) == non_null(member(body@, "data"@)),
            match errors {
                Some(list) => response.errors == list,
                None => response.errors@.len() == 0,
            },
            response@ == response_of(
                status@,
                body@,
                match errors {
                    Some(list) => error_messages(list@),
                    None => Seq::empty(),
                },
            ),
    {
        let data = match body.get("data") {
            Some(d) => if d.is_null() {
                None
            } else {
                Some(d.clone())
            },
            None => None,
        };
        let errors = match errors {
            Some(list) => list,
            None => Vec::new(),
        };
        let response = GraphQlResponse { status, data, errors };
        assert(errors@.len() == 0 ==> error_messages(errors@) =~= Seq::empty());
        response
    }

    /// The messages of the errors, in order, separated by semicolons.
    pub fn error_text(&self) -> (text: String)
        ensures
            text@ == joined(self@.errors, "; "@),
    {
        let mut messages: Vec<String> = Vec::new();
        let mut i: usize = 0;
        while i < self.errors.len()
            invariant
                i <= self.errors.len(),
                messages@.len() == i,
                forall|k: int| 0 <= k < i ==> (#[trigger] messages@[k])@ == self.errors@[k].message@,
            decreases self.errors.len() - i,
        {
            messages.push(self.errors[i].message.clone());
            i = i + 1;
        }
        assert(texts(messages@) =~= self@.errors);
        join(&messages, "; ")
    }

    /// The data of a response that succeeded, else what went wrong.
    pub fn into_data(self) -> (outcome: Result<Json, String>)
        ensures
            match outcome {
                Ok(data) => self@.outcome() == Ok::<JsonView, Seq<char>>(data@),
                Err(message) => self@.outcome() == Err::<JsonView, Seq<char>>(message@),
            },
    {
        if self.errors.len() > 0 {
            let mut message = "linear graphql errors: ".to_owned();
            message.append(self.error_text().as_str());
            return Err(message);
        }
        if !self.status.is_success() {
            let mut message = "linear http ".to_owned();
            message.append(self.status.to_text().as_str());
            message.append(": ");
            match &self.data {
                Some(data) => {
                    let mut shown = "Some(".to_owned();
                    shown.append(data.to_debug_text().as_str());
                    shown.append(")");
                    message.append(shown.as_str());
                },
                None => {
                    message.append("None");
                },
            }
            return Err(message);
        }
        match self.data {
            Some(data) => Ok(data),
            None => Err("linear response missing `data` field".to_owned()),
        }
    }
}

/// A GraphQL operation with its variables.
#[derive(Debug)]
pub struct GraphQlRequest {
    /// The operation.
    pub query: String,
    /// Its variables.
    pub variables: Json,
}

/// What a [`GraphQlRequest`] says.
pub struct RequestView {
    pub query: Seq<char>,
    pub variables: JsonView,
}

impl View for GraphQlRequest {
    type V = RequestView;

    open spec fn view(&self) -> RequestView {
        RequestView { query: self.query@, variables: self.variables@ }
    }
}

/// The request for a team's workflow states.
pub open spec fn team_states_request(team_id: Seq<char>) -> RequestView {
    RequestView {
        query: TEAM_STATES_QUERY@,
        variables: object1("teamId"@, JsonView::Text(team_id)),
    }
}

/// The workflow states in a response, not yet decoded, or what went wrong.
pub open spec fn state_nodes(response: ResponseView) -> Result<JsonView, Seq<char>> {
    match response.outcome() {
        Ok(data) => match member2(data, "team"@, "states"@) {
            Some(states) => match member(states, "nodes"@) {
                Some(nodes) => Ok(nodes),
                None => Err("linear response missing team.states.nodes"@),
            },
            None => Err("linear response missing team.states.nodes"@),
        },
        Err(message) => Err(message),
    }
}

/// The headers of a request: the content type, and the token as it is where
/// there is one.
pub open spec fn request_headers(token: Option<Seq<char>>) -> Seq<(Seq<char>, Seq<char>)> {
    let content_type = seq![("content-type"@, "application/json"@)];
    match token {
        Some(t) => content_type.push(("authorization"@, t)),
        None => content_type,
    }
}

/// The document that carries a GraphQL operation.
pub open spec fn envelope(request: RequestView) -> JsonView {
    object2("query"@, JsonView::Text(request.query), "variables"@, request.variables)
}

/// An HTTP POST to the endpoint.
pub struct HttpPost {
    /// Where it goes.
    pub url: String,
    /// Its headers, each with its name and its value.
    pub headers: Vec<(String, String)>,
    /// Its JSON body.
    pub body: String,
}

/// Whether an HTTP header can hold `value`: no control characters but the tab.
pub open spec fn header_safe(value: Seq<char>) -> bool {
    forall|i: int|
        0 <= i < value.len() ==> {
            ||| (#[trigger] value[i]) as u32 == 9
            ||| value[i] as u32 >= 32 && value[i] as u32 != 127
        }
}

/// The type `reqwest::header::HeaderValue`, opaque here.
#[verifier::external_type_specification]
#[verifier::external_body]
pub struct ExHeaderValue(reqwest::header::HeaderValue);

/// What a header value holds, its bytes read as UTF-8.
pub uninterp spec fn header_text(value: reqwest::header::HeaderValue) -> Seq<char>;

/// Whether a header value counts as sensitive: its `Debug` text does not show
/// what it holds.
pub uninterp spec fn header_sensitive(value: reqwest::header::HeaderValue) -> bool;

/// `reqwest::header::HeaderValue::from_str`: the value that holds the text, not
/// sensitive. It accepts every byte from 32 up but 127, and the tab.
#[verifier::external_body]
fn header_value(text: &str) -> (value: Option<reqwest::header::HeaderValue>)
    ensures
        match value {
            Some(v) => header_safe(text@) && header_text(v) == text@ && !header_sensitive(v),
            None => !header_safe(text@),
        },
{
    reqwest::header::HeaderValue::from_str(text).ok()
}

/// `reqwest::header::HeaderValue::set_sensitive` with `true`: the value holds
/// what it held, and counts as sensitive.
#[verifier::external_body]
fn mark_sensitive(value: &mut reqwest::header::HeaderValue)
    ensures
        header_text(*final(value)) == header_text(*old(value)),
        header_sensitive(*final(value)),
{
    value.set_sensitive(true)
}

/// `reqwest::header::HeaderValue::as_bytes`, read as UTF-8: what the value
/// holds.
#[verifier::external_body]
fn header_string(value: &reqwest::header::HeaderValue) -> (text: String)
    ensures
        text@ == header_text(*value),
{
    String::from_utf8_lossy(value.as_bytes()).into_owned()
}

/// `reqwest::header::HeaderValue::clone`: a value that holds the same and is
/// as sensitive.
#[verifier::external_body]
fn clone_header(value: &reqwest::header::HeaderValue) -> (copy: reqwest::header::HeaderValue)
    ensures
        header_text(copy) == header_text(*value),
        header_sensitive(copy) == header_sensitive(*value),
{
    value.clone()
}

/// What an optional header value holds.
pub open spec fn opt_header(value: Option<reqwest::header::HeaderValue>) -> Option<Seq<char>> {
    match value {
        Some(v) => Some(header_text(v)),
        None => None,
    }
}

/// Where requests go, what they are about and the token that they carry. The
/// token is a sensitive header value, so that no `Debug` text shows it.
#[derive(Debug)]
pub struct LinearClient {
    api_url: String,
    team_id: Option<String>,
    project_id: Option<String>,
    token: Option<reqwest::header::HeaderValue>,
}

/// What a [`LinearClient`] says.
pub struct ClientView {
    pub api_url: Seq<char>,
    pub team_id: Option<Seq<char>>,
    pub project_id: Option<Seq<char>>,
    pub token: Option<Seq<char>>,
}

impl ClientView {
    /// Whether there is an API token.
    pub open spec fn has_token(self) -> bool {
        self.token is Some
    }
}

impl View for LinearClient {
    type V = ClientView;

    closed spec fn view(&self) -> ClientView {
        ClientView {
            api_url: self.api_url@,
            team_id: opt_text(self.team_id),
            project_id: opt_text(self.project_id),
            token: opt_header(self.token),
        }
    }
}

/// What the client of a configuration says.
pub open spec fn client_of(config: ConfigView) -> ClientView {
    ClientView {
        api_url: config.api_url,
        team_id: config.team_id,
        project_id: config.project_id,
        token: config.api_token,
    }
}

/// Whether the configuration's token, if any, can stand in a header.
pub open spec fn token_safe(config: ConfigView) -> bool {
    config.api_token matches Some(token) ==> header_safe(token)
}

impl Clone for LinearClient {
    fn clone(&self) -> (copy: Self)
        ensures
            copy@ == self@,
    {
        proof {
            use_type_invariant(self);
        }
        let token = match &self.token {
            Some(token) => Some(clone_header(token)),
            None => None,
        };
        LinearClient {
            api_url: self.api_url.clone(),
            team_id: clone_opt(&self.team_id),
            project_id: clone_opt(&self.project_id),
            token,
        }
    }
}

impl LinearClient {
    #[verifier::type_invariant]
    spec fn valid(self) -> bool {
        self.token matches Some(token) ==> header_safe(header_text(token)) && header_sensitive(
            token,
        )
    }

    /// The client of a configuration. Without a token it makes no requests
    /// that need one; see [`Self::has_token`].
    pub fn new(config: &LinearConfig) -> (client: Result<Self, ClientError>)
        ensures
            match client {
                Ok(c) => token_safe(config@) && c@ == client_of(config@),
                Err(e) => !token_safe(config@) && e == ClientError::InvalidToken,
            },
    {
        let token = match &config.api_token {
            Some(text) => match header_value(text.as_str()) {
                Some(value) => {
                    let mut value = value;
                    mark_sensitive(&mut value);
                    Some(value)
                },
                None => {
                    return Err(ClientError::InvalidToken);
                },
            },
            None => None,
        };
        Ok(
            LinearClient {
                api_url: config.api_url.clone(),
                team_id: clone_opt(&config.team_id),
                project_id: clone_opt(&config.project_id),
                token,
            },
        )
    }

    /// The team that queries are about, if one is configured.
    pub fn team_id(&self) -> (team_id: Option<&str>)
        ensures
            match team_id {
                Some(t) => self@.team_id == Some(t@),
                None => self@.team_id is None,
            },
    {
        match &self.team_id {
            Some(t) => Some(t.as_str()),
            None => None,
        }
    }

    /// The project that new issues go into, if one is configured.
    pub fn project_id(&self) -> (project_id: Option<&str>)
        ensures
            match project_id {
                Some(p) => self@.project_id == Some(p@),
                None => self@.project_id is None,
            },
    {
        match &self.project_id {
            Some(p) => Some(p.as_str()),
            None => None,
        }
    }

    /// Whether there is an API token.
    pub fn has_token(&self) -> (yes: bool)
        ensures
            yes == self@.has_token(),
    {
        self.token.is_some()
    }

    /// The request for a team's workflow states.
    pub fn fetch_workflow_states(&self, team_id: &str) -> (request: GraphQlRequest)
        ensures
            request@ == team_states_request(team_id@),
    {
        GraphQlRequest {
            query: TEAM_STATES_QUERY.to_owned(),
            variables: Json::object1("teamId", Json::text(team_id)),
        }
    }

    /// The HTTP POST that carries a GraphQL operation.
    pub fn execute(&self, query: &str, variables: Json) -> (post: HttpPost)
        ensures
            post.url@ == self@.api_url,
            post.headers@.map_values(|h: (String, String)| (h.0@, h.1@)) == request_headers(
                self@.token,
            ),
            forall|i: int|
                0 <= i < post.headers@.len() ==> header_safe((#[trigger] post.headers@[i]).1@),
            post.body@ == json_text(
                object2("query"@, JsonView::Text(query@), "variables"@, variables@),
            ),
            post.body@ == json_text(envelope(RequestView { query: query@, variables: variables@ })),
    {
        let body = Json::object2("query", Json::text(query), "variables", variables);
        let mut headers: Vec<(String, String)> = Vec::new();
        headers.push(("content-type".to_owned(), "application/json".to_owned()));
        proof {
            use_type_invariant(self);
            reveal_strlit("application/json");
        }
        if let Some(token) = &self.token {
            headers.push(("authorization".to_owned(), header_string(token)));
        }
        assert(headers@.map_values(|h: (String, String)| (h.0@, h.1@)) =~= request_headers(
            self@.token,
        ));
        HttpPost { url: self.api_url.clone(), headers, body: body.to_text() }
    }
}

/// The JSON in the body of an HTTP response.
pub fn read_reply(body: &[u8]) -> (reply: Result<Json, ClientError>)
    ensures
        match reply {
            Ok(j) => bytes_json(body@) == Some(j@),
            Err(e) => bytes_json(body@) is None && e == ClientError::NotJson,
        },
{
    match Json::parse_bytes(body) {
        Some(j) => Ok(j),
        None => Err(ClientError::NotJson),
    }
}

/// The workflow states in a response, not yet decoded, or what went wrong.
pub fn workflow_state_nodes(response: GraphQlResponse) -> (nodes: Result<Json, String>)
    ensures
        match nodes {
            Ok(j) => state_nodes(response@) == Ok::<JsonView, Seq<char>>(j@),
            Err(message) => state_nodes(response@) == Err::<JsonView, Seq<char>>(message@),
        },
{
    let data = match response.into_data() {
        Ok(data) => data,
        Err(message) => {
            return Err(message);
        },
    };
    if let Some(team) = data.get("team") {
        if let Some(states) = team.get("states") {
            if let Some(nodes) = states.get("nodes") {
                return Ok(nodes.clone());
            }
        }
    }
    Err("linear response missing team.states.nodes".to_owned())
}

}
