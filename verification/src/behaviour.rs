//! What each operation does, from what goes in to what comes out.

use vstd::prelude::*;

use crate::backend::{
    after_reply, begin, begin_health, health_of, labels_dropped, node_subjects, with_states,
    BackendView, CallView, PendingView, ReplyView, StepView, COMMENT_MUTATION, CREATE_HEAD,
    GET_HEAD, GET_TAIL, HEALTH_QUERY, ISSUE_FIELDS, LIST_HEAD, NODE_TAIL, UPDATE_HEAD,
};
use crate::client::{
    status_text, ClientError, RequestView, ResponseView, WorkflowStateView, TEAM_STATES_QUERY,
};
use crate::config::status_word;
use crate::input::{wanted_state_ids, CreateRequestView};
use crate::issue::{
    animus_priority, graphql_error, issue_status, issue_subject, node_texts,
    timed_subject,
};
use crate::json::{
    json_debug, json_text, member, member2, number_of, number_u64, text_member,
    JsonView,
};
use crate::laws::{
    current, law_identifiers_round_trip, law_only_changes_are_sent, law_pages_are_complete,
    law_state_has_its_status,
};
use crate::status_map::{empty_map, type_status, workflow_map, StatusMapView};
use crate::subject::{
    BackendErrorView, HealthStatus, SubjectFilterView, SubjectPatchView, SubjectStatus,
    SubjectView,
};
use crate::text::{debug_text, joined, trimmed, trimmed_end, trimmed_start, white_space};
use crate::timestamp::{rfc3339_instant, rfc3339_text};

verus! {

/// A backend that has what its calls need: a token, a team and the team's
/// workflow.
pub open spec fn equipped(b: BackendView, team: Seq<char>, map: StatusMapView) -> bool {
    b.client.token is Some && b.client.team_id == Some(team) && b.status_map == Some(map)
}

/// A request brought data: it succeeded, without errors.
pub open spec fn brings(outcome: Result<ResponseView, ClientError>, data: JsonView) -> bool {
    &&& outcome is Ok
    &&& outcome->Ok_0.errors.len() == 0
    &&& 200 <= outcome->Ok_0.status < 300
    &&& outcome->Ok_0.data == Some(data)
}

/// The workflow that answers are read by.
pub open spec fn goes_by(b: BackendView, map: StatusMapView) -> bool {
    match b.status_map {
        Some(known) => map == known,
        None => map == empty_map(),
    }
}

/// The id of the issue with this identifier.
pub open spec fn linear_id(identifier: Seq<char>) -> Seq<char> {
    "linear:"@ + identifier
}

/// Texts as a JSON array.
pub open spec fn array_of(strings: Seq<Seq<char>>) -> JsonView {
    JsonView::Array(Seq::new(strings.len(), |i: int| JsonView::Text(strings[i])))
}

/// A text that holds more than white space.
pub open spec fn says_something(text: Seq<char>) -> bool {
    exists|i: int| 0 <= i < text.len() && !white_space(#[trigger] text[i])
}

proof fn lemma_trimmed_start(s: Seq<char>) -> (i: int)
    ensures
        0 <= i <= s.len(),
        trimmed_start(s) == s.subrange(i, s.len() as int),
        forall|k: int| 0 <= k < i ==> white_space(#[trigger] s[k]),
        i < s.len() ==> !white_space(s[i]),
    decreases s.len(),
{
    if s.len() > 0 && white_space(s.first()) {
        let rest = s.drop_first();
        let i = lemma_trimmed_start(rest);
        assert(s.subrange(i + 1, s.len() as int) =~= rest.subrange(i, rest.len() as int));
        assert forall|k: int| 0 <= k < i + 1 implies white_space(#[trigger] s[k]) by {
            if k > 0 {
                assert(rest[k - 1] == s[k]);
            }
        }
        i + 1
    } else {
        assert(s.subrange(0, s.len() as int) =~= s);
        0
    }
}

proof fn lemma_trimmed_end(s: Seq<char>) -> (j: int)
    ensures
        0 <= j <= s.len(),
        trimmed_end(s) == s.subrange(0, j),
        forall|k: int| j <= k < s.len() ==> white_space(#[trigger] s[k]),
        j > 0 ==> !white_space(s[j - 1]),
    decreases s.len(),
{
    if s.len() > 0 && white_space(s.last()) {
        let rest = s.drop_last();
        let j = lemma_trimmed_end(rest);
        assert(s.subrange(0, j) =~= rest.subrange(0, j));
        assert forall|k: int| j <= k < s.len() implies white_space(#[trigger] s[k]) by {
            if k < rest.len() {
                assert(rest[k] == s[k]);
            }
        }
        j
    } else {
        assert(s.subrange(0, s.len() as int) =~= s);
        s.len() as int
    }
}

/// Trimming takes white space off both ends, all of it, and nothing else. What
/// it returns is where the rest starts and ends.
pub proof fn law_trimming(s: Seq<char>) -> (bounds: (int, int))
    ensures
        0 <= bounds.0 <= bounds.1 <= s.len(),
        trimmed(s) == s.subrange(bounds.0, bounds.1),
        forall|k: int| 0 <= k < bounds.0 ==> white_space(#[trigger] s[k]),
        forall|k: int| bounds.1 <= k < s.len() ==> white_space(#[trigger] s[k]),
        bounds.0 < bounds.1 ==> !white_space(s[bounds.0]) && !white_space(s[bounds.1 - 1]),
        trimmed(s).len() > 0 <==> says_something(s),
{
    let i = lemma_trimmed_start(s);
    let body = s.subrange(i, s.len() as int);
    let n = lemma_trimmed_end(body);
    assert(body.subrange(0, n) =~= s.subrange(i, i + n));
    assert forall|k: int| i + n <= k < s.len() implies white_space(#[trigger] s[k]) by {
        assert(body[k - i] == s[k]);
    }
    if n > 0 {
        assert(body[n - 1] == s[i + n - 1]);
        if i < s.len() {
            assert(!white_space(s[i]));
        }
    }
    if says_something(s) {
        let k = choose|k: int| 0 <= k < s.len() && !white_space(#[trigger] s[k]);
        assert(i <= k < i + n);
    }
    (i, i + n)
}

/// Every operation reads as it is written out here.
pub proof fn law_operations_read_so()
    ensures
        ISSUE_FIELDS@ == r#"
id
identifier
title
description
priority
url
createdAt
updatedAt
state { id name type }
assignee { id name email }
labels(first: 50) { nodes { name } }
parent { identifier }
children(first: 50) { nodes { identifier } }
"#@,
        LIST_HEAD@ == r#"
            query AnimusListIssues($filter: IssueFilter, $first: Int, $after: String) {
              issues(filter: $filter, first: $first, after: $after, orderBy: updatedAt) {
                pageInfo { hasNextPage endCursor }
                nodes {
                  "#@,
        GET_HEAD@ == r#"
            query AnimusGetIssue($id: String!) {
              issue(id: $id) {
                "#@,
        UPDATE_HEAD@ == r#"
            mutation AnimusUpdateIssue($id: String!, $input: IssueUpdateInput!) {
              issueUpdate(id: $id, input: $input) {
                success
                issue {
                  "#@,
        CREATE_HEAD@ == r#"
            mutation AnimusCreateIssue($input: IssueCreateInput!) {
              issueCreate(input: $input) {
                success
                issue {
                  "#@,
        NODE_TAIL@ == r#"
                }
              }
            }
            "#@,
        GET_TAIL@ == r#"
              }
            }
            "#@,
        COMMENT_MUTATION@ == r#"
        mutation AnimusCreateComment($input: CommentCreateInput!) {
          commentCreate(input: $input) {
            success
            comment { id }
          }
        }
        "#@,
        TEAM_STATES_QUERY@ == r#"
            query AnimusTeamStates($teamId: String!) {
              team(id: $teamId) {
                states {
                  nodes { id name type position }
                }
              }
            }
        "#@,
        HEALTH_QUERY@ == "query AnimusHealth { viewer { id name } }"@,
{
}

/// Whether a state has one of the statuses.
pub open spec fn has_wanted_status(wanted: Seq<SubjectStatus>) -> spec_fn(
    (Seq<char>, (Seq<char>, SubjectStatus)),
) -> bool {
    |row: (Seq<char>, (Seq<char>, SubjectStatus))|
        exists|i: int| 0 <= i < wanted.len() && #[trigger] wanted[i] == row.1.1
}

proof fn lemma_wanted_by_filter(
    rows: Seq<(Seq<char>, (Seq<char>, SubjectStatus))>,
    wanted: Seq<SubjectStatus>,
)
    ensures
        wanted_state_ids(rows, wanted) == rows.filter(has_wanted_status(wanted)).map_values(
            |row: (Seq<char>, (Seq<char>, SubjectStatus))| row.0,
        ),
    decreases rows.len(),
{
    reveal(Seq::filter);
    let pred = has_wanted_status(wanted);
    let ids = |row: (Seq<char>, (Seq<char>, SubjectStatus))| row.0;
    if rows.len() > 0 {
        lemma_wanted_by_filter(rows.drop_last(), wanted);
        assert(pred(rows.last()) == wanted.contains(rows.last().1.1));
    }
    assert(wanted_state_ids(rows, wanted) =~= rows.filter(pred).map_values(ids));
}

/// What a list call sends. The state is restricted by id exactly if a status is
/// wanted and some state of the workflow has one that is: to these states, all
/// of them, in order, whatever else the filter says; and by name exactly if a
/// name is given. Team, assignee, labels and time stand beside it, each exactly
/// where it is asked for, and nothing else does.
pub proof fn law_list_is_sent_with_its_filter(
    b: BackendView,
    team: Seq<char>,
    map: StatusMapView,
    filter: SubjectFilterView,
    key: Seq<char>,
)
    requires
        equipped(b, team, map),
    ensures
        ({
            let step = begin(b, CallView::List(filter));
            let request = step->Send_0;
            let sent = member(request.variables, "filter"@)->0;
            let wanted = map.states.filter(has_wanted_status(filter.status));
            let by_status = filter.status.len() > 0 && wanted.len() > 0;
            let state = member(sent, "state"@);
            &&& step is Send
            &&& step->Send_1 == PendingView::Page
            &&& request.query == LIST_HEAD@ + ISSUE_FIELDS@ + NODE_TAIL@
            &&& request.variables is Object
            &&& request.variables->Object_0.contains_key(key) <==> key == "filter"@ || key
                == "first"@ || key == "after"@
            &&& member(request.variables, "first"@) == Some(
                JsonView::Number(
                    number_of(
                        match filter.limit {
                            None => 50,
                            Some(n) => if n == 0 {
                                1
                            } else if n >= 100 {
                                100
                            } else {
                                n as u64
                            },
                        },
                    ),
                ),
            )
            &&& member(request.variables, "after"@) == Some(
                match filter.cursor {
                    Some(cursor) => JsonView::Text(cursor),
                    None => JsonView::Null,
                },
            )
            &&& sent is Object
            &&& member2(sent, "team"@, "id"@) is Some
            &&& member(sent, "team"@) == Some(
                JsonView::Object(
                    map![
                        "id"@ => JsonView::Object(map!["eq"@ => JsonView::Text(team)]),
                    ],
                ),
            )
            &&& state is Some <==> by_status || filter.native_status is Some
            &&& state is Some ==> state->0 is Object
            &&& member2(sent, "state"@, "id"@) == (if by_status {
                Some(
                    JsonView::Object(
                        map![
                            "in"@ => array_of(Seq::new(wanted.len(), |i: int| wanted[i].0)),
                        ],
                    ),
                )
            } else {
                None
            })
            &&& member2(sent, "state"@, "name"@) == (match filter.native_status {
                Some(name) => Some(JsonView::Object(map!["eq"@ => JsonView::Text(name)])),
                None => None,
            })
            &&& state is Some && state->0->Object_0.contains_key(key) ==> key == "id"@ || key
                == "name"@
            &&& sent->Object_0.contains_key(key) ==> key == "team"@ || key == "state"@ || key
                == "assignee"@ || key == "labels"@ || key == "updatedAt"@
        }),
{
    let step = begin(b, CallView::List(filter));
    let sent = member(step->Send_0.variables, "filter"@)->0;
    let wanted = map.states.filter(has_wanted_status(filter.status));
    let ids = |row: (Seq<char>, (Seq<char>, SubjectStatus))| row.0;
    lemma_wanted_by_filter(map.states, filter.status);
    let texts = |s: Seq<char>| JsonView::Text(s);
    assert(wanted.map_values(ids).map_values(texts) =~= Seq::new(
        wanted.len(),
        |i: int| JsonView::Text(Seq::new(wanted.len(), |k: int| wanted[k].0)[i]),
    ));
    reveal_strlit("filter");
    reveal_strlit("first");
    reveal_strlit("after");
    reveal_strlit("team");
    reveal_strlit("state");
    reveal_strlit("assignee");
    reveal_strlit("labels");
    reveal_strlit("updatedAt");
    reveal_strlit("id");
    reveal_strlit("name");
    assert("filter"@.len() == 6 && "first"@.len() == 5 && "after"@.len() == 5);
    assert("first"@[0] == 'f' && "after"@[0] == 'a');
    assert("team"@.len() == 4 && "state"@.len() == 5 && "assignee"@.len() == 8);
    assert("labels"@.len() == 6 && "updatedAt"@.len() == 9);
    assert("id"@.len() == 2 && "name"@.len() == 4);
}

/// The other criteria of a list call: assignees by email or by name, labels of
/// which one is wanted and labels of which each is, and the instant since which
/// issues changed. Each stands in the filter exactly where it is asked for.
pub proof fn law_list_is_sent_with_its_other_criteria(
    b: BackendView,
    team: Seq<char>,
    map: StatusMapView,
    filter: SubjectFilterView,
    i: int,
)
    requires
        equipped(b, team, map),
    ensures
        ({
            let sent = member(begin(b, CallView::List(filter))->Send_0.variables, "filter"@)->0;
            let any = filter.labels_any;
            let all = filter.labels_all;
            let labels = member2(sent, "labels"@, "and"@);
            let first: int = if any.len() > 0 {
                1
            } else {
                0
            };
            &&& member(sent, "assignee"@) == (if filter.assignee.len() == 0 {
                None
            } else {
                Some(
                    JsonView::Object(
                        map![
                            "or"@ => JsonView::Array(
                                seq![
                                    JsonView::Object(map![
                                        "email"@ => JsonView::Object(
                                            map!["in"@ => array_of(filter.assignee)],
                                        ),
                                    ]),
                                    JsonView::Object(map![
                                        "name"@ => JsonView::Object(
                                            map!["in"@ => array_of(filter.assignee)],
                                        ),
                                    ]),
                                ],
                            ),
                        ],
                    ),
                )
            })
            &&& member(sent, "labels"@) is Some <==> any.len() + all.len() > 0
            &&& any.len() + all.len() > 0 ==> {
                &&& member(sent, "labels"@) == Some(JsonView::Object(map!["and"@ => labels->0]))
                &&& labels->0 is Array
                &&& labels->0->Array_0.len() == first + all.len()
                &&& any.len() > 0 ==> labels->0->Array_0[0] == JsonView::Object(
                    map!["name"@ => JsonView::Object(map!["in"@ => array_of(any)])],
                )
                &&& 0 <= i < all.len() ==> labels->0->Array_0[first + i] == JsonView::Object(
                    map!["name"@ => JsonView::Object(map!["eq"@ => JsonView::Text(all[i])])],
                )
            }
            &&& member(sent, "updatedAt"@) == (match filter.updated_since {
                Some(t) => Some(
                    JsonView::Object(map!["gte"@ => JsonView::Text(rfc3339_text(t.0, t.1))]),
                ),
                None => None,
            })
        }),
{
    let texts = |s: Seq<char>| JsonView::Text(s);
    assert(filter.assignee.map_values(texts) =~= Seq::new(
        filter.assignee.len(),
        |k: int| JsonView::Text(filter.assignee[k]),
    ));
    assert(filter.labels_any.map_values(texts) =~= Seq::new(
        filter.labels_any.len(),
        |k: int| JsonView::Text(filter.labels_any[k]),
    ));
    reveal_strlit("filter");
    reveal_strlit("first");
    reveal_strlit("after");
    reveal_strlit("team");
    reveal_strlit("state");
    reveal_strlit("assignee");
    reveal_strlit("labels");
    reveal_strlit("updatedAt");
    assert("filter"@.len() == 6 && "first"@.len() == 5 && "after"@.len() == 5);
    assert("team"@.len() == 4 && "state"@.len() == 5 && "assignee"@.len() == 8);
    assert("labels"@.len() == 6 && "updatedAt"@.len() == 9);
}

/// The team of a creation: that of the request, else the configured one.
pub open spec fn team_for(b: BackendView, req: CreateRequestView) -> Option<Seq<char>> {
    if req.team_id is Some {
        req.team_id
    } else {
        b.client.team_id
    }
}

/// The state that a creation asks for can be found: it names no status, or one
/// that the known workflow can write, whose id is `state`.
pub open spec fn state_for(
    b: BackendView,
    req: CreateRequestView,
    state: Option<Seq<char>>,
) -> bool {
    match req.status {
        None => state is None,
        Some(word) => {
            &&& b.client.team_id is Some
            &&& b.status_map is Some
            &&& status_word(word) is Some
            &&& b.status_map->0.targets.contains_key(status_word(word)->0)
            &&& state == Some(b.status_map->0.targets[status_word(word)->0])
        },
    }
}

/// What a creation sends: an `issueCreate` of the very request. Team and title
/// always; the body as the description wherever it is not empty, the project
/// and the priority wherever there is one, and the state wherever a status is
/// named. Each of these is there or not whatever the others are, and nothing
/// else is sent.
pub proof fn law_creation_is_sent_as_requested(
    b: BackendView,
    req: CreateRequestView,
    team: Seq<char>,
    state: Option<Seq<char>>,
    key: Seq<char>,
)
    requires
        b.client.token is Some,
        says_something(req.title),
        team_for(b, req) == Some(team),
        state_for(b, req, state),
    ensures
        ({
            let step = begin(b, CallView::Create(req));
            let request = step->Send_0;
            let input = member(request.variables, "input"@)->0;
            let project = if req.project_id is Some {
                req.project_id
            } else {
                b.client.project_id
            };
            &&& step is Send
            &&& step->Send_1 == PendingView::Created(req.status is Some)
            &&& request.query == CREATE_HEAD@ + ISSUE_FIELDS@ + NODE_TAIL@
            &&& request.variables is Object
            &&& request.variables->Object_0.contains_key(key) <==> key == "input"@
            &&& input is Object
            &&& member(input, "teamId"@) == Some(JsonView::Text(team))
            &&& member(input, "title"@) == Some(JsonView::Text(trimmed(req.title)))
            &&& member(input, "description"@) == (match req.body {
                Some(body) => if body.len() > 0 {
                    Some(JsonView::Text(body))
                } else {
                    None
                },
                None => None,
            })
            &&& member(input, "projectId"@) == (match project {
                Some(id) => Some(JsonView::Text(id)),
                None => None,
            })
            &&& member(input, "priority"@) == (match req.priority {
                Some(bucket) => if bucket == "p0"@ || bucket == "P0"@ {
                    Some(JsonView::Number(number_of(1)))
                } else if bucket == "p1"@ || bucket == "P1"@ {
                    Some(JsonView::Number(number_of(2)))
                } else if bucket == "p2"@ || bucket == "P2"@ {
                    Some(JsonView::Number(number_of(3)))
                } else if bucket == "p3"@ || bucket == "P3"@ {
                    Some(JsonView::Number(number_of(4)))
                } else {
                    None
                },
                None => None,
            })
            &&& member(input, "stateId"@) == (match state {
                Some(id) => Some(JsonView::Text(id)),
                None => None,
            })
            &&& input->Object_0.contains_key(key) ==> key == "teamId"@ || key == "title"@ || key
                == "description"@ || key == "projectId"@ || key == "priority"@ || key
                == "stateId"@
        }),
{
    law_trimming(req.title);
    reveal_strlit("teamId");
    reveal_strlit("title");
    reveal_strlit("description");
    reveal_strlit("projectId");
    reveal_strlit("priority");
    reveal_strlit("stateId");
    assert("teamId"@.len() == 6 && "title"@.len() == 5 && "description"@.len() == 11);
    assert("projectId"@.len() == 9 && "priority"@.len() == 8 && "stateId"@.len() == 7);
}

/// When a creation is refused at once: without a token, else for a title of
/// white space, else without a team, else, where it names a status, without a
/// configured team, else for a status that is none or that the known workflow
/// cannot write.
pub proof fn law_creation_is_refused(b: BackendView, req: CreateRequestView, word: Seq<char>)
    ensures
        ({
            let step = begin(b, CallView::Create(req));
            let token = b.client.token is Some;
            let titled = says_something(req.title);
            let teamed = team_for(b, req) is Some;
            let known = b.client.team_id is Some && b.status_map is Some && req.status == Some(
                word,
            );
            &&& !token ==> step == StepView::Done(
                Err(BackendErrorView::Other("LINEAR_API_TOKEN required"@)),
            )
            &&& token && !titled ==> step == StepView::Done(
                Err(BackendErrorView::InvalidRequest("title must not be empty"@)),
            )
            &&& token && titled && !teamed ==> step == StepView::Done(
                Err(
                    BackendErrorView::InvalidRequest(
                        "LINEAR_TEAM_ID must be set to create issues"@,
                    ),
                ),
            )
            &&& token && titled && teamed && req.status is Some && b.client.team_id is None ==> step
                == StepView::Done(
                Err(
                    BackendErrorView::InvalidRequest(
                        "LINEAR_TEAM_ID must be set to discover workflow states for status mapping"@,
                    ),
                ),
            )
            &&& token && titled && known && status_word(word) is None ==> step == StepView::Done(
                Err(BackendErrorView::InvalidRequest("unknown status "@ + debug_text(word))),
            )
            &&& token && titled && known && status_word(word) is Some
                && !b.status_map->0.targets.contains_key(status_word(word)->0) ==> step
                == StepView::Done(
                Err(
                    BackendErrorView::InvalidRequest(
                        "no Linear workflow state maps to animus status "@ + variant_name(
                            status_word(word)->0,
                        ) + "; configure LINEAR_STATUS_MAP env var to override"@,
                    ),
                ),
            )
            &&& labels_dropped(b, req) <==> token && titled && teamed && req.labels.len() > 0
        }),
{
    law_trimming(req.title);
}

/// A status as it is named in messages.
pub open spec fn variant_name(status: SubjectStatus) -> Seq<char> {
    match status {
        SubjectStatus::Ready => "Ready"@,
        SubjectStatus::InProgress => "InProgress"@,
        SubjectStatus::Blocked => "Blocked"@,
        SubjectStatus::Done => "Done"@,
        SubjectStatus::Cancelled => "Cancelled"@,
    }
}

/// Fetching a subject sends the query for the issue that its id names.
pub proof fn law_get_is_sent(
    b: BackendView,
    team: Seq<char>,
    map: StatusMapView,
    identifier: Seq<char>,
)
    requires
        equipped(b, team, map),
    ensures
        begin(b, CallView::Get(linear_id(identifier))) == StepView::Send(
            RequestView {
                query: GET_HEAD@ + ISSUE_FIELDS@ + GET_TAIL@,
                variables: JsonView::Object(map!["id"@ => JsonView::Text(identifier)]),
            },
            PendingView::Issue(linear_id(identifier), None),
        ),
{
    law_identifiers_round_trip(identifier);
}

/// What a change sends. A patch without a status, an assignee, labels or fields
/// of its own only fetches the issue; any other goes out as an `issueUpdate`
/// of the issue that the id names. There the state is the one that stands for
/// the status; a field of the patch's own goes as it is; assignee and labels go
/// wherever the patch has them and no field of its own is in their place; and
/// nothing else is sent. A comment waits for the answer either way.
pub proof fn law_change_is_sent_as_patched(
    b: BackendView,
    team: Seq<char>,
    map: StatusMapView,
    identifier: Seq<char>,
    patch: SubjectPatchView,
    key: Seq<char>,
)
    requires
        equipped(b, team, map),
        patch.status is Some ==> map.targets.contains_key(patch.status->0),
    ensures
        ({
            let id = linear_id(identifier);
            let step = begin(b, CallView::Update(id, patch));
            let request = step->Send_0;
            let input = member(request.variables, "input"@)->0;
            let changes = patch.status is Some || patch.assignee is Some || patch.labels_add.len()
                > 0 || patch.labels_remove.len() > 0 || exists|k: Seq<char>|
                patch.custom.contains_key(k);
            &&& step is Send
            &&& member(request.variables, "id"@) == Some(JsonView::Text(identifier))
            &&& !changes ==> step == StepView::Send(
                RequestView {
                    query: GET_HEAD@ + ISSUE_FIELDS@ + GET_TAIL@,
                    variables: JsonView::Object(map!["id"@ => JsonView::Text(identifier)]),
                },
                PendingView::Issue(id, patch.comment),
            )
            &&& changes ==> {
                &&& step->Send_1 == PendingView::Updated(id, patch.comment)
                &&& request.query == UPDATE_HEAD@ + ISSUE_FIELDS@ + NODE_TAIL@
                &&& request.variables is Object
                &&& request.variables->Object_0.contains_key(key) <==> key == "id"@ || key
                    == "input"@
                &&& input is Object
                &&& member(input, key) == (if key == "stateId"@ && patch.status is Some {
                    Some(JsonView::Text(map.targets[patch.status->0]))
                } else if patch.custom.contains_key(key) {
                    Some(patch.custom[key])
                } else if key == "assigneeId"@ && patch.assignee is Some {
                    Some(
                        match patch.assignee->0 {
                            Some(who) => JsonView::Text(who),
                            None => JsonView::Null,
                        },
                    )
                } else if key == "addedLabelIds"@ && patch.labels_add.len() > 0 {
                    Some(array_of(patch.labels_add))
                } else if key == "removedLabelIds"@ && patch.labels_remove.len() > 0 {
                    Some(array_of(patch.labels_remove))
                } else {
                    None
                })
            }
        }),
{
    law_only_changes_are_sent(b, identifier, patch);
    let nothing = Map::<Seq<char>, JsonView>::empty();
    if patch.custom != nothing {
        if forall|k: Seq<char>| !patch.custom.contains_key(k) {
            assert(patch.custom =~= nothing);
        }
    }
    let texts = |s: Seq<char>| JsonView::Text(s);
    assert(patch.labels_add.map_values(texts) =~= Seq::new(
        patch.labels_add.len(),
        |k: int| JsonView::Text(patch.labels_add[k]),
    ));
    assert(patch.labels_remove.map_values(texts) =~= Seq::new(
        patch.labels_remove.len(),
        |k: int| JsonView::Text(patch.labels_remove[k]),
    ));
    reveal_strlit("id");
    reveal_strlit("input");
    reveal_strlit("stateId");
    reveal_strlit("assigneeId");
    reveal_strlit("addedLabelIds");
    reveal_strlit("removedLabelIds");
    assert("id"@.len() == 2 && "input"@.len() == 5);
    assert("stateId"@.len() == 7 && "assigneeId"@.len() == 10);
    assert("addedLabelIds"@.len() == 13 && "removedLabelIds"@.len() == 15);
}

/// A change to a status that the known workflow cannot write is refused at
/// once.
pub proof fn law_unwritable_change_is_refused(
    b: BackendView,
    team: Seq<char>,
    map: StatusMapView,
    identifier: Seq<char>,
    patch: SubjectPatchView,
)
    requires
        equipped(b, team, map),
        patch.status is Some,
        !map.targets.contains_key(patch.status->0),
    ensures
        begin(b, CallView::Update(linear_id(identifier), patch)) == StepView::Done(
            Err(
                BackendErrorView::InvalidRequest(
                    "no Linear workflow state maps to animus status "@ + variant_name(
                        patch.status->0,
                    ) + "; configure LINEAR_STATUS_MAP env var to override"@,
                ),
            ),
        ),
{
    law_identifiers_round_trip(identifier);
}

/// A call that goes by the team's workflow: it lists, it fetches or changes one
/// of Linear's subjects, or it creates one with a title and a status.
pub open spec fn needs_workflow(b: BackendView, call: CallView) -> bool {
    match call {
        CallView::List(_) => true,
        CallView::Get(id) => "linear:"@.is_prefix_of(id),
        CallView::Update(id, _) => "linear:"@.is_prefix_of(id),
        CallView::Create(req) => says_something(req.title) && req.status is Some && team_for(
            b,
            req,
        ) is Some,
    }
}

/// A call that goes by the team's workflow fails without a token, then without
/// a team; while the workflow is not known, it asks for the team's states
/// first and waits as it was made.
pub proof fn law_workflow_comes_first(b: BackendView, call: CallView)
    requires
        needs_workflow(b, call),
    ensures
        b.client.token is None ==> begin(b, call) == StepView::Done(
            Err(BackendErrorView::Other("LINEAR_API_TOKEN required"@)),
        ),
        b.client.token is Some && b.client.team_id is None ==> begin(b, call) == StepView::Done(
            Err(
                BackendErrorView::InvalidRequest(
                    "LINEAR_TEAM_ID must be set to discover workflow states for status mapping"@,
                ),
            ),
        ),
        b.client.token is Some && b.client.team_id is Some && b.status_map is None ==> begin(
            b,
            call,
        ) == StepView::Send(
            RequestView {
                query: TEAM_STATES_QUERY@,
                variables: JsonView::Object(
                    map!["teamId"@ => JsonView::Text(b.client.team_id->0)],
                ),
            },
            PendingView::States(call),
        ),
{
    if let CallView::Create(req) = call {
        law_trimming(req.title);
    }
}

/// An id without Linear's prefix is refused, whatever the backend has.
pub proof fn law_ids_need_the_prefix(b: BackendView, id: Seq<char>, patch: SubjectPatchView)
    requires
        !"linear:"@.is_prefix_of(id),
    ensures
        begin(b, CallView::Get(id)) == begin(b, CallView::Update(id, patch)),
        begin(b, CallView::Get(id)) == StepView::Done(
            Err(
                BackendErrorView::InvalidRequest(
                    "subject id "@ + debug_text(id)
                        + " is not a linear id (expected `linear:<identifier>` prefix)"@,
                ),
            ),
        ),
{
}

/// A health check sends its query with a token, and is over without one.
pub proof fn law_health_check_is_sent(b: BackendView)
    ensures
        b.client.token is Some ==> begin_health(b) == StepView::Send(
            RequestView {
                query: HEALTH_QUERY@,
                variables: JsonView::Object(Map::<Seq<char>, JsonView>::empty()),
            },
            PendingView::Health,
        ),
        b.client.token is None ==> begin_health(b) is Done && begin_health(b)->Done_0 is Ok && (
        begin_health(b)->Done_0->Ok_0 matches ReplyView::Health(health) && health.status
            == HealthStatus::Unhealthy && health.last_error == Some("LINEAR_API_TOKEN unset"@)),
{
}

/// What was learnt of the workflow changes nothing else, and what did not
/// decode changes nothing at all.
pub proof fn law_learning_changes_only_the_workflow(
    b: BackendView,
    states: Seq<WorkflowStateView>,
)
    ensures
        with_states(b, None) == b,
        with_states(b, Some(states)).client == b.client,
        with_states(b, Some(states)).overrides == b.overrides,
        b.status_map is Some ==> with_states(b, Some(states)).status_map == b.status_map,
        b.status_map is None ==> with_states(b, Some(states)).status_map == Some(
            workflow_map(states, b.overrides),
        ),
{
}

/// What is read of an answer in which no data came: why the request failed.
/// Errors come before the HTTP status, and that before missing data. For the
/// workflow's states the request's own failure has one message, and everything
/// else is an unavailable service.
pub proof fn law_failures_are_reported(
    b: BackendView,
    pending: PendingView,
    outcome: Result<ResponseView, ClientError>,
)
    requires
        !(pending is Health),
    ensures
        ({
            let step = after_reply(b, pending, outcome);
            let response = outcome->Ok_0;
            let answered = outcome is Ok;
            let clean = answered && response.errors.len() == 0;
            let succeeded = clean && 200 <= response.status < 300;
            let errors = "linear graphql errors: "@ + joined(response.errors, "; "@);
            let status = "linear http "@ + status_text(response.status) + ": "@ + (
            match response.data {
                Some(data) => "Some("@ + json_debug(data) + ")"@,
                None => "None"@,
            });
            let missing = "linear response missing `data` field"@;
            &&& outcome is Err && pending is States ==> step == StepView::Done(
                Err(BackendErrorView::Unavailable("linear workflow states query failed"@)),
            )
            &&& outcome is Err && !(pending is States) ==> step == StepView::Done(
                Err(
                    BackendErrorView::Unavailable(
                        match outcome->Err_0 {
                            ClientError::InvalidToken => "LINEAR_API_TOKEN contains characters that aren't valid in a header"@,
                            ClientError::Transport => "linear graphql request failed at the transport layer"@,
                            ClientError::NotJson => "linear response was not valid JSON"@,
                        },
                    ),
                ),
            )
            &&& answered && !clean ==> step == StepView::Done(
                Err(
                    if pending is States {
                        BackendErrorView::Unavailable(errors)
                    } else {
                        graphql_error(errors)
                    },
                ),
            )
            &&& clean && !succeeded ==> step == StepView::Done(
                Err(
                    if pending is States {
                        BackendErrorView::Unavailable(status)
                    } else {
                        graphql_error(status)
                    },
                ),
            )
            &&& succeeded && response.data is None ==> step == StepView::Done(
                Err(
                    if pending is States {
                        BackendErrorView::Unavailable(missing)
                    } else {
                        graphql_error(missing)
                    },
                ),
            )
        }),
{
}

/// The answer to the query for the workflow's states is handed on to be decoded
/// wherever it holds them.
pub proof fn law_states_are_handed_on(
    b: BackendView,
    call: CallView,
    outcome: Result<ResponseView, ClientError>,
    data: JsonView,
)
    requires
        brings(outcome, data),
    ensures
        ({
            let team = member(data, "team"@);
            let states = if team is Some {
                member(team->0, "states"@)
            } else {
                None
            };
            let nodes = if states is Some {
                member(states->0, "nodes"@)
            } else {
                None
            };
            &&& nodes is Some ==> after_reply(b, PendingView::States(call), outcome)
                == StepView::Decode(nodes->0, call)
            &&& nodes is None ==> after_reply(b, PendingView::States(call), outcome)
                == StepView::Done(
                Err(
                    BackendErrorView::Unavailable(
                        "linear response missing team.states.nodes"@,
                    ),
                ),
            )
        }),
{
}

/// What a list call brings: the subjects of the nodes, one for each, in order.
/// The cursor is there exactly if there is a next page and it says where that
/// starts, whatever the nodes are.
pub proof fn law_page_is_read_whole(
    b: BackendView,
    outcome: Result<ResponseView, ClientError>,
    data: JsonView,
    issues: JsonView,
    nodes: Seq<JsonView>,
    map: StatusMapView,
    cursor: Seq<char>,
    i: int,
)
    requires
        brings(outcome, data),
        goes_by(b, map),
        member(data, "issues"@) == Some(issues),
        member(issues, "nodes"@) == Some(JsonView::Array(nodes)),
    ensures
        ({
            let step = after_reply(b, PendingView::Page, outcome);
            let readable = forall|k: int|
                0 <= k < nodes.len() ==> issue_subject(#[trigger] nodes[k], map) is Ok;
            let page = step->Done_0->Ok_0->Page_0;
            &&& step is Done
            &&& step->Done_0 is Ok <==> readable
            &&& readable ==> {
                &&& step->Done_0->Ok_0 is Page
                &&& page.subjects.len() == nodes.len()
                &&& 0 <= i < nodes.len() ==> issue_subject(nodes[i], map) == Ok::<
                    SubjectView,
                    BackendErrorView,
                >(page.subjects[i])
                &&& page.next_cursor == Some(cursor) <==> {
                    &&& member2(issues, "pageInfo"@, "hasNextPage"@) == Some(JsonView::Bool(true))
                    &&& member2(issues, "pageInfo"@, "endCursor"@) == Some(JsonView::Text(cursor))
                }
            }
            &&& 0 <= i < nodes.len() && issue_subject(nodes[i], map) is Err && (forall|k: int|
                0 <= k < i ==> issue_subject(#[trigger] nodes[k], map) is Ok) ==> step
                == StepView::Done(Err(issue_subject(nodes[i], map)->Err_0))
        }),
{
    law_pages_are_complete(nodes, map);
    if node_subjects(nodes, map) is Err {
        let e = node_subjects(nodes, map)->Err_0;
        let first = choose|k: int|
            #![trigger nodes[k]]
            0 <= k < nodes.len() && issue_subject(nodes[k], map) == Err::<
                SubjectView,
                BackendErrorView,
            >(e) && forall|j: int| 0 <= j < k ==> issue_subject(#[trigger] nodes[j], map) is Ok;
        assert(issue_subject(nodes[first], map) is Err);
        if 0 <= i < nodes.len() && issue_subject(nodes[i], map) is Err {
            assert(first <= i);
        }
    }
}

/// A page that lacks its issues or their nodes is an error.
pub proof fn law_page_needs_its_nodes(
    b: BackendView,
    outcome: Result<ResponseView, ClientError>,
    data: JsonView,
)
    requires
        brings(outcome, data),
    ensures
        member(data, "issues"@) is None ==> after_reply(b, PendingView::Page, outcome)
            == StepView::Done(Err(BackendErrorView::Other("missing `issues` in response"@))),
        member(data, "issues"@) is Some && !(member2(data, "issues"@, "nodes"@) is Some && member2(
            data,
            "issues"@,
            "nodes"@,
        )->0 is Array) ==> after_reply(b, PendingView::Page, outcome) == StepView::Done(
            Err(BackendErrorView::Other("missing `issues.nodes` array"@)),
        ),
{
}

/// The answer to a fetch or a change holds an issue.
pub open spec fn issue_came(
    pending: PendingView,
    data: JsonView,
    id: Seq<char>,
    comment: Option<Seq<char>>,
    issue: JsonView,
) -> bool {
    &&& !(issue is Null)
    &&& {
        ||| pending == PendingView::Issue(id, comment) && member(data, "issue"@) == Some(issue)
        ||| {
            &&& pending == PendingView::Updated(id, comment)
            &&& member(data, "issueUpdate"@) is Some
            &&& member2(data, "issueUpdate"@, "success"@) == Some(JsonView::Bool(true))
            &&& member2(data, "issueUpdate"@, "issue"@) == Some(issue)
        }
    }
}

/// How a call ends with an issue: with its subject, or with the reason why it
/// has none.
pub open spec fn ends_with(issue: JsonView, map: StatusMapView, step: StepView) -> bool {
    match issue_subject(issue, map) {
        Ok(subject) => step == StepView::Done(Ok(ReplyView::Subject(subject))),
        Err(e) => step == StepView::Done(Err(e)),
    }
}

/// Once the issue of a fetch or a change is there, a comment that is not empty
/// is posted next, on the issue's own id and as it is, whatever the issue
/// holds; an issue without an id is an error. Without such a comment the call
/// ends with the issue's subject.
pub proof fn law_comment_follows_the_issue(
    b: BackendView,
    pending: PendingView,
    outcome: Result<ResponseView, ClientError>,
    data: JsonView,
    id: Seq<char>,
    comment: Option<Seq<char>>,
    issue: JsonView,
    map: StatusMapView,
)
    requires
        brings(outcome, data),
        goes_by(b, map),
        issue_came(pending, data, id, comment, issue),
    ensures
        ({
            let step = after_reply(b, pending, outcome);
            let posts = comment is Some && comment->0.len() > 0;
            let uuid = member(issue, "id"@);
            &&& posts && uuid is Some && uuid->0 is Text ==> step == StepView::Send(
                RequestView {
                    query: COMMENT_MUTATION@,
                    variables: JsonView::Object(
                        map![
                            "input"@ => JsonView::Object(map![
                                "issueId"@ => uuid->0,
                                "body"@ => JsonView::Text(comment->0),
                            ]),
                        ],
                    ),
                },
                PendingView::Comment(id, issue),
            )
            &&& posts && !(uuid is Some && uuid->0 is Text) ==> step == StepView::Done(
                Err(
                    BackendErrorView::Other(
                        "linear response for "@ + id
                            + " is missing issue.id; cannot post comment"@,
                    ),
                ),
            )
            &&& !posts ==> ends_with(issue, map, step)
        }),
{
}

/// The answer to a comment ends the call: with the subject of the issue that it
/// was posted on if Linear took it, else with what Linear said.
pub proof fn law_comment_ends_the_call(
    b: BackendView,
    outcome: Result<ResponseView, ClientError>,
    data: JsonView,
    id: Seq<char>,
    issue: JsonView,
    map: StatusMapView,
)
    requires
        brings(outcome, data),
        goes_by(b, map),
    ensures
        ({
            let step = after_reply(b, PendingView::Comment(id, issue), outcome);
            let taken = member2(data, "commentCreate"@, "success"@) == Some(JsonView::Bool(true));
            &&& taken ==> ends_with(issue, map, step)
            &&& !taken ==> step == StepView::Done(
                Err(
                    BackendErrorView::InvalidRequest(
                        "linear rejected comment for "@ + id + ": "@ + json_text(data),
                    ),
                ),
            )
        }),
{
}

/// How a fetch or a change fails on data without the issue: as not found,
/// unless Linear did not answer or did not take the change.
pub proof fn law_missing_issues_are_reported(
    b: BackendView,
    outcome: Result<ResponseView, ClientError>,
    data: JsonView,
    id: Seq<char>,
    comment: Option<Seq<char>>,
)
    requires
        brings(outcome, data),
    ensures
        ({
            let fetched = after_reply(b, PendingView::Issue(id, comment), outcome);
            let changed = after_reply(b, PendingView::Updated(id, comment), outcome);
            let issue = member(data, "issue"@);
            let payload = member(data, "issueUpdate"@);
            let taken = payload is Some && member(payload->0, "success"@) == Some(
                JsonView::Bool(true),
            );
            let after = if payload is Some {
                member(payload->0, "issue"@)
            } else {
                None
            };
            &&& issue is None || issue == Some(JsonView::Null) ==> fetched == StepView::Done(
                Err(BackendErrorView::NotFound(id)),
            )
            &&& payload is None ==> changed == StepView::Done(
                Err(BackendErrorView::Other("missing `issueUpdate` in response"@)),
            )
            &&& payload is Some && !taken ==> changed == StepView::Done(
                Err(
                    BackendErrorView::InvalidRequest(
                        "linear rejected update for "@ + id + ": "@ + json_text(payload->0),
                    ),
                ),
            )
            &&& taken && (after is None || after == Some(JsonView::Null)) ==> changed
                == StepView::Done(Err(BackendErrorView::NotFound(id)))
        }),
{
}

/// How a creation ends: with the subject of the new issue, read by the known
/// workflow if the creation went by it and without one if not, else with what
/// went wrong.
pub proof fn law_creation_ends_with_the_issue(
    b: BackendView,
    outcome: Result<ResponseView, ClientError>,
    data: JsonView,
    discovered: bool,
    map: StatusMapView,
)
    requires
        brings(outcome, data),
        if discovered {
            goes_by(b, map)
        } else {
            map == empty_map()
        },
    ensures
        ({
            let step = after_reply(b, PendingView::Created(discovered), outcome);
            let payload = member(data, "issueCreate"@);
            let taken = payload is Some && member(payload->0, "success"@) == Some(
                JsonView::Bool(true),
            );
            let issue = if payload is Some {
                member(payload->0, "issue"@)
            } else {
                None
            };
            let came = issue is Some && !(issue->0 is Null);
            &&& taken && came ==> ends_with(issue->0, map, step)
            &&& taken && !came ==> step == StepView::Done(
                Err(BackendErrorView::Other("issueCreate returned no issue node"@)),
            )
            &&& payload is Some && !taken ==> step == StepView::Done(
                Err(
                    BackendErrorView::InvalidRequest(
                        "linear rejected issue create: "@ + json_text(payload->0),
                    ),
                ),
            )
            &&& payload is None ==> step == StepView::Done(
                Err(BackendErrorView::Other("missing `issueCreate` in response"@)),
            )
        }),
{
}

/// How a health check ends: healthy exactly if a response without errors
/// succeeded, else unhealthy with the errors, or with the HTTP status where
/// there are none; and with an error where no response came.
pub proof fn law_health_check_ends(
    b: BackendView,
    outcome: Result<ResponseView, ClientError>,
)
    ensures
        ({
            let step = after_reply(b, PendingView::Health, outcome);
            let response = outcome->Ok_0;
            let health = step->Done_0->Ok_0->Health_0;
            &&& step is Done
            &&& step->Done_0 is Ok <==> outcome is Ok
            &&& outcome is Err ==> step->Done_0->Err_0 == BackendErrorView::Unavailable(
                match outcome->Err_0 {
                    ClientError::InvalidToken => "LINEAR_API_TOKEN contains characters that aren't valid in a header"@,
                    ClientError::Transport => "linear graphql request failed at the transport layer"@,
                    ClientError::NotJson => "linear response was not valid JSON"@,
                },
            )
            &&& outcome is Ok ==> {
                &&& step->Done_0->Ok_0 is Health
                &&& health.uptime_ms is None && health.memory_usage_bytes is None
                &&& health == health_of(response)
                &&& health.status == HealthStatus::Healthy <==> response.errors.len() == 0 && 200
                    <= response.status < 300
                &&& health.last_error == (if response.errors.len() > 0 {
                    Some(joined(response.errors, "; "@))
                } else if 200 <= response.status < 300 {
                    None
                } else {
                    Some("linear returned HTTP "@ + status_text(response.status))
                })
            }
        }),
{
}

/// Whether a node has a string under `key`.
pub open spec fn names(key: Seq<char>) -> spec_fn(JsonView) -> bool {
    |node: JsonView| member(node, key) is Some && member(node, key)->0 is Text
}

/// The nodes of a connection that have a string under `key`, each by it.
pub open spec fn named_nodes(nodes: Seq<JsonView>, key: Seq<char>) -> Seq<Seq<char>> {
    let named = nodes.filter(names(key));
    Seq::new(named.len(), |i: int| member(named[i], key)->0->Text_0)
}

proof fn lemma_node_texts(nodes: Seq<JsonView>, key: Seq<char>)
    ensures
        node_texts(nodes, key) == named_nodes(nodes, key),
    decreases nodes.len(),
{
    reveal(Seq::filter);
    if nodes.len() > 0 {
        lemma_node_texts(nodes.drop_last(), key);
        assert(names(key)(nodes.last()) == text_member(nodes.last(), key) is Some);
    }
    assert(node_texts(nodes, key) =~= named_nodes(nodes, key));
}

proof fn lemma_all_named(nodes: Seq<JsonView>, key: Seq<char>)
    requires
        forall|i: int| 0 <= i < nodes.len() ==> names(key)(#[trigger] nodes[i]),
    ensures
        nodes.filter(names(key)) == nodes,
    decreases nodes.len(),
{
    reveal(Seq::filter);
    if nodes.len() > 0 {
        let shorter = nodes.drop_last();
        assert forall|i: int| 0 <= i < shorter.len() implies names(key)(#[trigger] shorter[i]) by {
            assert(names(key)(nodes[i]));
        }
        lemma_all_named(shorter, key);
        assert(names(key)(nodes[nodes.len() - 1]));
        assert(nodes.filter(names(key)) =~= nodes);
    }
}

/// The labels of a subject are the names of the issue's labels, all of them and
/// in order; its children are the issue's, by their ids. Where every node has
/// its string, the i-th node gives the i-th label or child.
pub proof fn law_connections_are_read_whole(
    issue: JsonView,
    map: StatusMapView,
    subject: SubjectView,
    nodes: Seq<JsonView>,
    i: int,
)
    requires
        issue_subject(issue, map) == Ok::<SubjectView, BackendErrorView>(subject),
    ensures
        member2(issue, "labels"@, "nodes"@) == Some(JsonView::Array(nodes)) ==> {
            let every = forall|k: int| 0 <= k < nodes.len() ==> names("name"@)(#[trigger] nodes[k]);
            &&& subject.labels == named_nodes(nodes, "name"@)
            &&& every ==> subject.labels.len() == nodes.len()
            &&& every && 0 <= i < nodes.len() ==> member(nodes[i], "name"@) == Some(
                JsonView::Text(subject.labels[i]),
            )
        },
        !(member2(issue, "labels"@, "nodes"@) is Some && member2(
            issue,
            "labels"@,
            "nodes"@,
        )->0 is Array) ==> subject.labels.len() == 0,
        member2(issue, "children"@, "nodes"@) == Some(JsonView::Array(nodes)) ==> {
            let key = "identifier"@;
            let every = forall|k: int| 0 <= k < nodes.len() ==> names(key)(#[trigger] nodes[k]);
            let found = named_nodes(nodes, key);
            &&& subject.children == Seq::new(found.len(), |k: int| linear_id(found[k]))
            &&& every ==> subject.children.len() == nodes.len()
            &&& every && 0 <= i < nodes.len() ==> subject.children[i] == linear_id(
                member(nodes[i], key)->0->Text_0,
            )
        },
        !(member2(issue, "children"@, "nodes"@) is Some && member2(
            issue,
            "children"@,
            "nodes"@,
        )->0 is Array) ==> subject.children.len() == 0,
{
    lemma_node_texts(nodes, "name"@);
    lemma_node_texts(nodes, "identifier"@);
    if forall|k: int| 0 <= k < nodes.len() ==> names("name"@)(#[trigger] nodes[k]) {
        lemma_all_named(nodes, "name"@);
        if 0 <= i < nodes.len() {
            assert(names("name"@)(nodes[i]));
        }
    }
    if forall|k: int| 0 <= k < nodes.len() ==> names("identifier"@)(#[trigger] nodes[k]) {
        lemma_all_named(nodes, "identifier"@);
    }
    if member2(issue, "children"@, "nodes"@) == Some(JsonView::Array(nodes)) {
        let found = named_nodes(nodes, "identifier"@);
        assert(subject.children =~= Seq::new(found.len(), |k: int| linear_id(found[k])));
    }
}

/// A string of an issue, where it has one.
pub open spec fn string_at(j: Option<JsonView>) -> Option<Seq<char>> {
    if j is Some && j->0 is Text {
        Some(j->0->Text_0)
    } else {
        None
    }
}

/// What the subject of an issue holds, field by field.
pub proof fn law_subject_says_what_the_issue_says(
    issue: JsonView,
    map: StatusMapView,
    created_at: (i64, u32),
    updated_at: (i64, u32),
    subject: SubjectView,
    key: Seq<char>,
)
    requires
        timed_subject(issue, map, created_at, updated_at) == Ok::<SubjectView, BackendErrorView>(
            subject,
        ),
    ensures
        ({
            let assignee = member(issue, "assignee"@);
            let email = if assignee is Some {
                string_at(member(assignee->0, "email"@))
            } else {
                None
            };
            let name = if assignee is Some {
                string_at(member(assignee->0, "name"@))
            } else {
                None
            };
            let description = string_at(member(issue, "description"@));
            let state_name = string_at(member2(issue, "state"@, "name"@));
            let state_type = string_at(member2(issue, "state"@, "type"@));
            let uuid = string_at(member(issue, "id"@));
            let priority = member(issue, "priority"@);
            let title = string_at(member(issue, "title"@));
            &&& string_at(member(issue, "identifier"@)) is Some
            &&& subject.id == linear_id(string_at(member(issue, "identifier"@))->0)
            &&& subject.kind == "issue"@
            &&& title is Some ==> subject.title == title->0
            &&& title is None ==> subject.title.len() == 0
            &&& subject.description == (if description is Some && description->0.len() > 0 {
                description
            } else {
                None
            })
            &&& subject.status == issue_status(issue, map)
            &&& subject.priority == (if priority is Some && priority->0 is Number && number_u64(
                priority->0->Number_0,
            ) is Some {
                animus_priority(number_u64(priority->0->Number_0)->0)
            } else {
                None
            })
            &&& subject.assignee == (if email is Some {
                email
            } else {
                name
            })
            &&& subject.parent == (match string_at(member2(issue, "parent"@, "identifier"@)) {
                Some(parent) => Some(linear_id(parent)),
                None => None,
            })
            &&& subject.url == string_at(member(issue, "url"@))
            &&& subject.created_at == created_at
            &&& subject.updated_at == updated_at
            &&& subject.native_status == (if state_name is Some && state_name->0.len() > 0 {
                state_name
            } else {
                None
            })
            &&& subject.custom.contains_key("linear_state_type"@) <==> state_type is Some
            &&& state_type is Some ==> subject.custom["linear_state_type"@] == JsonView::Text(
                state_type->0,
            )
            &&& subject.custom.contains_key("linear_state_name"@) <==> state_name is Some
            &&& state_name is Some ==> subject.custom["linear_state_name"@] == JsonView::Text(
                state_name->0,
            )
            &&& subject.custom.contains_key("linear_uuid"@) <==> uuid is Some
            &&& uuid is Some ==> subject.custom["linear_uuid"@] == JsonView::Text(uuid->0)
            &&& subject.custom.contains_key(key) ==> key == "linear_state_type"@ || key
                == "linear_state_name"@ || key == "linear_uuid"@
            &&& subject.status_metadata == JsonView::Null
            &&& subject.attachments.len() == 0
        }),
{
    reveal_strlit("linear_state_type");
    reveal_strlit("linear_state_name");
    reveal_strlit("linear_uuid");
    assert("linear_state_type"@[13] == 't' && "linear_state_name"@[13] == 'n');
    assert("linear_state_type"@.len() == 17 && "linear_uuid"@.len() == 11);
}

/// When an issue has a subject: exactly if it has an identifier and two
/// timestamps that read, which the subject then carries. Else the first of
/// these that is wrong says why not.
pub proof fn law_issues_with_subjects(issue: JsonView, map: StatusMapView)
    ensures
        ({
            let identifier = string_at(member(issue, "identifier"@));
            let created = string_at(member(issue, "createdAt"@));
            let updated = string_at(member(issue, "updatedAt"@));
            let created_at = rfc3339_instant(created->0);
            let updated_at = rfc3339_instant(updated->0);
            let on_time = created is Some && created_at is Ok;
            let readable = identifier is Some && on_time && updated is Some && updated_at is Ok;
            let read = issue_subject(issue, map);
            &&& read is Ok <==> readable
            &&& readable ==> {
                &&& read == timed_subject(issue, map, created_at->Ok_0, updated_at->Ok_0)
                &&& read->Ok_0.created_at == created_at->Ok_0
                &&& read->Ok_0.updated_at == updated_at->Ok_0
            }
            &&& identifier is None ==> read->Err_0 == BackendErrorView::Other(
                "linear issue node is missing `identifier`: "@ + json_text(issue),
            )
            &&& identifier is Some && created is None ==> read->Err_0 == BackendErrorView::Other(
                "missing timestamp"@,
            )
            &&& identifier is Some && created is Some && created_at is Err ==> read->Err_0
                == BackendErrorView::Other(
                "invalid timestamp "@ + debug_text(created->0) + ": "@ + created_at->Err_0,
            )
            &&& identifier is Some && on_time && updated is None ==> read->Err_0
                == BackendErrorView::Other("missing timestamp"@)
            &&& identifier is Some && on_time && updated is Some && updated_at is Err
                ==> read->Err_0 == BackendErrorView::Other(
                "invalid timestamp "@ + debug_text(updated->0) + ": "@ + updated_at->Err_0,
            )
        }),
{
}

/// Whether an issue with an identifier has a subject at given instants.
pub proof fn law_timed_subjects_need_an_identifier(
    issue: JsonView,
    map: StatusMapView,
    created_at: (i64, u32),
    updated_at: (i64, u32),
)
    ensures
        ({
            let read = timed_subject(issue, map, created_at, updated_at);
            &&& read is Ok <==> string_at(member(issue, "identifier"@)) is Some
            &&& read is Err ==> read->Err_0 == BackendErrorView::Other(
                "linear issue node is missing `identifier`: "@ + json_text(issue),
            )
        }),
{
}

/// The status of an issue: by its state's id where the workflow knows that,
/// else by its state's name where the workflow knows that, else by its state's
/// type.
pub proof fn law_issue_status(issue: JsonView, map: StatusMapView)
    ensures
        ({
            let id = string_at(member2(issue, "state"@, "id"@));
            let name = match string_at(member2(issue, "state"@, "name"@)) {
                Some(n) => n,
                None => Seq::empty(),
            };
            let state_type = match string_at(member2(issue, "state"@, "type"@)) {
                Some(t) => t,
                None => Seq::empty(),
            };
            let by_id = if id is Some {
                map.status_of(id->0)
            } else {
                None
            };
            &&& by_id is Some ==> issue_status(issue, map) == by_id->0
            &&& by_id is None && map.status_named(name) is Some ==> issue_status(issue, map)
                == map.status_named(name)->0
            &&& by_id is None && map.status_named(name) is None ==> issue_status(issue, map)
                == type_status(state_type)
        }),
{
}

/// An issue in a state of the workflow has the status that the overrides give
/// the state's name, else the one of the state's type in the workflow.
pub proof fn law_issue_in_a_workflow_state(
    states: Seq<WorkflowStateView>,
    overrides: Map<Seq<char>, SubjectStatus>,
    issue: JsonView,
    i: int,
)
    requires
        current(states, i),
        member2(issue, "state"@, "id"@) == Some(JsonView::Text(states[i].id)),
    ensures
        issue_status(issue, workflow_map(states, overrides)) == (if overrides.contains_key(
            states[i].name,
        ) {
            overrides[states[i].name]
        } else {
            type_status(states[i].state_type)
        }),
{
    law_state_has_its_status(states, overrides, i);
}

/// Without a workflow an issue's status is that of its state's type.
pub proof fn law_issue_without_a_workflow(issue: JsonView, state_type: Seq<char>)
    requires
        member2(issue, "state"@, "type"@) == Some(JsonView::Text(state_type)),
    ensures
        issue_status(issue, empty_map()) == type_status(state_type),
        empty_map().names.len() == 0,
        forall|status: SubjectStatus| empty_map().target(status) is None,
{
}

}
