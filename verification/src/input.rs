//! What goes to Linear: issue filters and the inputs of mutations.

use vstd::prelude::*;

use crate::config::{parse_subject_status, status_word};
use crate::issue::{
    as_document, bucket_priority, keep_non_blank, no_members, non_blank, priority_bucket_to_linear,
    set_optional, text_document, with_member,
};
use crate::json::{
    array_view, lemma_array_view, number_of, object1, object_view, set_member, text_array,
    text_or_null, Json, JsonView,
};
use crate::status_map::{StatusMap, StatusMapView};
use crate::string_map::StringMap;
use crate::subject::{
    BackendError, BackendErrorView, SubjectFilter, SubjectFilterView, SubjectPatch,
    SubjectPatchView, SubjectStatus,
};
use crate::text::{debug_text, opt_str, opt_text, quoted, texts, trim, trimmed};
use crate::timestamp::rfc3339_text;

verus! {

/// The ids of the states with one of these statuses.
pub open spec fn wanted_state_ids(
    states: Seq<(Seq<char>, (Seq<char>, SubjectStatus))>,
    wanted: Seq<SubjectStatus>,
) -> Seq<Seq<char>>
    decreases states.len(),
{
    if states.len() == 0 {
        Seq::empty()
    } else {
        let before = wanted_state_ids(states.drop_last(), wanted);
        if wanted.contains(states.last().1.1) {
            before.push(states.last().0)
        } else {
            before
        }
    }
}

/// Which states issues are to be in: those with a wanted status, by id, and
/// the one with the wanted name. Without a wanted status, or where no state
/// has one, ids play no role.
pub open spec fn state_clause(filter: SubjectFilterView, map: StatusMapView) -> Option<JsonView> {
    let ids = wanted_state_ids(map.states, filter.status);
    let by_id = if filter.status.len() > 0 && ids.len() > 0 {
        Some(object1("in"@, text_array(ids)))
    } else {
        None
    };
    let by_name = match filter.native_status {
        Some(name) => Some(object1("eq"@, JsonView::Text(name))),
        None => None,
    };
    if by_id is None && by_name is None {
        None
    } else {
        Some(
            JsonView::Object(
                with_member(with_member(Map::empty(), "id"@, by_id), "name"@, by_name),
            ),
        )
    }
}

/// Whom issues are to be assigned to, by email or by name.
pub open spec fn assignee_clause(assignee: Seq<Seq<char>>) -> Option<JsonView> {
    if assignee.len() == 0 {
        None
    } else {
        Some(
            object1(
                "or"@,
                JsonView::Array(
                    seq![
                        object1("email"@, object1("in"@, text_array(assignee))),
                        object1("name"@, object1("in"@, text_array(assignee))),
                    ],
                ),
            ),
        )
    }
}

/// Which labels issues are to have: one of the first, and all of the second.
pub open spec fn labels_clause(any: Seq<Seq<char>>, all: Seq<Seq<char>>) -> Option<JsonView> {
    if any.len() == 0 && all.len() == 0 {
        None
    } else {
        let one_of = if any.len() == 0 {
            Seq::<JsonView>::empty()
        } else {
            seq![object1("name"@, object1("in"@, text_array(any)))]
        };
        let each = all.map_values(
            |label: Seq<char>| object1("name"@, object1("eq"@, JsonView::Text(label))),
        );
        Some(object1("and"@, JsonView::Array(one_of + each)))
    }
}

/// The `IssueFilter` of a list call.
pub open spec fn issue_filter(
    team_id: Option<Seq<char>>,
    filter: SubjectFilterView,
    map: StatusMapView,
) -> JsonView {
    let team = match team_id {
        Some(id) => Some(object1("id"@, object1("eq"@, JsonView::Text(id)))),
        None => None,
    };
    let since = match filter.updated_since {
        Some(t) => Some(object1("gte"@, JsonView::Text(rfc3339_text(t.0, t.1)))),
        None => None,
    };
    let m1 = with_member(Map::empty(), "team"@, team);
    let m2 = with_member(m1, "state"@, state_clause(filter, map));
    let m3 = with_member(m2, "assignee"@, assignee_clause(filter.assignee));
    let m4 = with_member(m3, "labels"@, labels_clause(filter.labels_any, filter.labels_all));
    JsonView::Object(with_member(m4, "updatedAt"@, since))
}

fn wants(wanted: &Vec<SubjectStatus>, status: SubjectStatus) -> (yes: bool)
    ensures
        yes == wanted@.contains(status),
{
    let mut i: usize = 0;
    while i < wanted.len()
        invariant
            i <= wanted.len(),
            forall|k: int| 0 <= k < i ==> wanted@[k] != status,
        decreases wanted.len() - i,
    {
        if wanted[i] == status {
            assert(wanted@[i as int] == status);
            return true;
        }
        i = i + 1;
    }
    false
}

fn collect_state_ids(map: &StatusMap, wanted: &Vec<SubjectStatus>) -> (ids: Vec<String>)
    ensures
        texts(ids@) == wanted_state_ids(map@.states, wanted@),
{
    let states = map.iter();
    let ghost views = map@.states;
    let mut ids: Vec<String> = Vec::new();
    assert(texts(ids@) =~= Seq::empty());
    let mut i: usize = 0;
    while i < states.len()
        invariant
            i <= states.len(),
            views == states@.map_values(|s: (&str, &str, SubjectStatus)| (s.0@, (s.1@, s.2))),
            texts(ids@) == wanted_state_ids(views.take(i as int), wanted@),
        decreases states.len() - i,
    {
        assert(views.take(i + 1).drop_last() =~= views.take(i as int));
        let state = states[i];
        assert(views[i as int] == (state.0@, (state.1@, state.2)));
        if wants(wanted, state.2) {
            let ghost before = ids@;
            ids.push(state.0.to_owned());
            assert(texts(ids@) =~= texts(before).push(state.0@));
        }
        i = i + 1;
    }
    assert(views.take(i as int) =~= views);
    ids
}

fn build_state_clause(filter: &SubjectFilter, map: &StatusMap) -> (clause: Option<Json>)
    ensures
        match clause {
            Some(j) => state_clause(filter@, map@) == Some(j@),
            None => state_clause(filter@, map@) is None,
        },
{
    let mut state = no_members();
    let mut restricts = false;
    if filter.status.len() > 0 {
        let ids = collect_state_ids(map, &filter.status);
        assert(texts(ids@).len() == ids@.len());
        if ids.len() > 0 {
            set_member(&mut state, "id", Json::object1("in", Json::from_texts(&ids)));
            restricts = true;
        }
    }
    if let Some(name) = &filter.native_status {
        set_member(&mut state, "name", Json::object1("eq", Json::text(name.as_str())));
        restricts = true;
    }
    if restricts {
        Some(Json::Object(state))
    } else {
        None
    }
}

fn build_assignee_clause(assignee: &Vec<String>) -> (clause: Option<Json>)
    ensures
        match clause {
            Some(j) => assignee_clause(texts(assignee@)) == Some(j@),
            None => assignee_clause(texts(assignee@)) is None,
        },
{
    assert(texts(assignee@).len() == assignee@.len());
    if assignee.len() == 0 {
        return None;
    }
    let by_email = Json::object1("email", Json::object1("in", Json::from_texts(assignee)));
    let by_name = Json::object1("name", Json::object1("in", Json::from_texts(assignee)));
    let mut either: Vec<Json> = Vec::new();
    either.push(by_email);
    either.push(by_name);
    proof {
        lemma_array_view(either@);
        assert(array_view(either@) =~= seq![by_email@, by_name@]);
    }
    Some(Json::object1("or", Json::Array(either)))
}

fn build_labels_clause(any: &Vec<String>, all: &Vec<String>) -> (clause: Option<Json>)
    ensures
        match clause {
            Some(j) => labels_clause(texts(any@), texts(all@)) == Some(j@),
            None => labels_clause(texts(any@), texts(all@)) is None,
        },
{
    assert(texts(any@).len() == any@.len());
    assert(texts(all@).len() == all@.len());
    if any.len() == 0 && all.len() == 0 {
        return None;
    }
    let ghost label_clause = |label: Seq<char>|
        object1("name"@, object1("eq"@, JsonView::Text(label)));
    let ghost one_of = if any@.len() == 0 {
        Seq::<JsonView>::empty()
    } else {
        seq![object1("name"@, object1("in"@, text_array(texts(any@))))]
    };
    let mut clauses: Vec<Json> = Vec::new();
    if any.len() > 0 {
        clauses.push(Json::object1("name", Json::object1("in", Json::from_texts(any))));
    }
    proof {
        lemma_array_view(clauses@);
        assert(array_view(clauses@) =~= one_of);
    }
    let mut i: usize = 0;
    while i < all.len()
        invariant
            i <= all.len(),
            label_clause == (|label: Seq<char>|
                object1("name"@, object1("eq"@, JsonView::Text(label)))),
            array_view(clauses@) == one_of + texts(all@).take(i as int).map_values(label_clause),
        decreases all.len() - i,
    {
        let ghost before = clauses@;
        let clause = Json::object1("name", Json::object1("eq", Json::text(all[i].as_str())));
        clauses.push(clause);
        proof {
            assert(clauses@.drop_last() =~= before);
            assert(clause@ == label_clause(texts(all@)[i as int]));
            assert(texts(all@).take(i + 1).map_values(label_clause) =~= texts(all@).take(
                i as int,
            ).map_values(label_clause).push(clause@));
            assert(array_view(clauses@) =~= one_of + texts(all@).take(i + 1).map_values(
                label_clause,
            ));
        }
        i = i + 1;
    }
    assert(texts(all@).take(i as int) =~= texts(all@));
    Some(Json::object1("and", Json::Array(clauses)))
}

/// The `IssueFilter` of a list call.
pub fn build_issue_filter(team_id: Option<&str>, filter: &SubjectFilter, map: &StatusMap) -> (j:
    Json)
    ensures
        j@ == issue_filter(
            match team_id {
                Some(id) => Some(id@),
                None => None,
            },
            filter@,
            map@,
        ),
{
    let team = match team_id {
        Some(id) => Some(Json::object1("id", Json::object1("eq", Json::text(id)))),
        None => None,
    };
    let since = match &filter.updated_since {
        Some(t) => Some(Json::object1("gte", Json::text(t.to_rfc3339().as_str()))),
        None => None,
    };
    let mut members = no_members();
    set_optional(&mut members, "team", team);
    set_optional(&mut members, "state", build_state_clause(filter, map));
    set_optional(&mut members, "assignee", build_assignee_clause(&filter.assignee));
    set_optional(
        &mut members,
        "labels",
        build_labels_clause(&filter.labels_any, &filter.labels_all),
    );
    set_optional(&mut members, "updatedAt", since);
    Json::Object(members)
}

/// The error for a status that no state of the workflow stands for.
pub open spec fn unmapped_status(status: SubjectStatus) -> BackendErrorView {
    BackendErrorView::InvalidRequest(
        "no Linear workflow state maps to animus status "@ + status.spec_name()
            + "; configure LINEAR_STATUS_MAP env var to override"@,
    )
}

/// The texts as an array, where there are any.
pub open spec fn some_texts(strings: Seq<Seq<char>>) -> Option<JsonView> {
    if strings.len() == 0 {
        None
    } else {
        Some(text_array(strings))
    }
}

/// The members of the `IssueUpdateInput` of a patch: assignee and labels,
/// overridden by the patch's own fields, and those by the status. A comment is
/// no part of it.
pub open spec fn update_input(patch: SubjectPatchView, map: StatusMapView) -> Result<
    Map<Seq<char>, JsonView>,
    BackendErrorView,
> {
    let assignee = match patch.assignee {
        Some(a) => Some(text_or_null(a)),
        None => None,
    };
    let m1 = with_member(Map::empty(), "assigneeId"@, assignee);
    let m2 = with_member(m1, "addedLabelIds"@, some_texts(patch.labels_add));
    let m3 = with_member(m2, "removedLabelIds"@, some_texts(patch.labels_remove));
    let m4 = m3.union_prefer_right(patch.custom);
    match patch.status {
        Some(status) => match map.target(status) {
            Some(id) => Ok(m4.insert("stateId"@, JsonView::Text(id))),
            None => Err(unmapped_status(status)),
        },
        None => Ok(m4),
    }
}

fn unmapped(status: SubjectStatus) -> (error: BackendError)
    ensures
        error@ == unmapped_status(status),
{
    let mut message = "no Linear workflow state maps to animus status ".to_owned();
    message.append(status.name());
    message.append("; configure LINEAR_STATUS_MAP env var to override");
    BackendError::InvalidRequest(message)
}

fn texts_document(strings: &Vec<String>) -> (j: Option<Json>)
    ensures
        match j {
            Some(d) => some_texts(texts(strings@)) == Some(d@),
            None => some_texts(texts(strings@)) is None,
        },
{
    assert(texts(strings@).len() == strings@.len());
    if strings.len() == 0 {
        None
    } else {
        Some(Json::from_texts(strings))
    }
}

/// The members of the `IssueUpdateInput` of a patch. A status becomes the id
/// of the state that stands for it; the comment is left to a mutation of its
/// own, so that it does not overwrite the issue's description.
pub fn build_update_input(patch: &SubjectPatch, map: &StatusMap) -> (input: Result<
    StringMap<Json>,
    BackendError,
>)
    ensures
        match input {
            Ok(members) => update_input(patch@, map@) == Ok::<
                Map<Seq<char>, JsonView>,
                BackendErrorView,
            >(object_view(members.entries@)),
            Err(e) => update_input(patch@, map@) == Err::<
                Map<Seq<char>, JsonView>,
                BackendErrorView,
            >(e@),
        },
{
    let assignee = match &patch.assignee {
        Some(Some(a)) => Some(Json::text(a.as_str())),
        Some(None) => Some(Json::Null),
        None => None,
    };
    let mut input = no_members();
    set_optional(&mut input, "assigneeId", assignee);
    set_optional(&mut input, "addedLabelIds", texts_document(&patch.labels_add));
    set_optional(&mut input, "removedLabelIds", texts_document(&patch.labels_remove));

    let ghost base = object_view(input.entries@);
    let ghost custom = patch.custom.entries@;
    assert(base.union_prefer_right(object_view(custom.take(0))) =~= base);
    let mut i: usize = 0;
    while i < patch.custom.entries.len()
        invariant
            i <= patch.custom.entries.len(),
            custom == patch.custom.entries@,
            object_view(input.entries@) == base.union_prefer_right(
                object_view(custom.take(i as int)),
            ),
        decreases patch.custom.entries.len() - i,
    {
        let entry = &patch.custom.entries[i];
        assert(custom.take(i + 1).drop_last() =~= custom.take(i as int));
        set_member(&mut input, entry.0.as_str(), entry.1.clone());
        assert(object_view(input.entries@) =~= base.union_prefer_right(
            object_view(custom.take(i + 1)),
        ));
        i = i + 1;
    }
    assert(custom.take(i as int) =~= custom);

    if let Some(status) = patch.status {
        match map.animus_to_linear_state_id(status) {
            Some(id) => {
                set_member(&mut input, "stateId", Json::text(id));
            },
            None => {
                return Err(unmapped(status));
            },
        }
    }
    Ok(input)
}

/// What a `create` call asks for. The fields stand at the top level of its
/// parameters.
#[derive(Debug)]
pub struct CreateRequest {
    /// Title. Has to hold more than white space.
    pub title: String,
    /// Markdown body, Linear's `description`.
    pub body: Option<String>,
    /// Status by name, as in `ready` or `in-progress`.
    pub status: Option<String>,
    /// Priority bucket, `p0` to `p3`.
    pub priority: Option<String>,
    /// Label names. They are not applied.
    pub labels: Vec<String>,
    /// Project UUID, in place of the configured one.
    pub project_id: Option<String>,
    /// Team UUID or key, in place of the configured one.
    pub team_id: Option<String>,
}

/// What a [`CreateRequest`] says.
pub struct CreateRequestView {
    pub title: Seq<char>,
    pub body: Option<Seq<char>>,
    pub status: Option<Seq<char>>,
    pub priority: Option<Seq<char>>,
    pub labels: Seq<Seq<char>>,
    pub project_id: Option<Seq<char>>,
    pub team_id: Option<Seq<char>>,
}

impl View for CreateRequest {
    type V = CreateRequestView;

    open spec fn view(&self) -> CreateRequestView {
        CreateRequestView {
            title: self.title@,
            body: opt_text(self.body),
            status: opt_text(self.status),
            priority: opt_text(self.priority),
            labels: texts(self.labels@),
            project_id: opt_text(self.project_id),
            team_id: opt_text(self.team_id),
        }
    }
}

/// The first of two values that is there.
pub open spec fn first_of(a: Option<Seq<char>>, b: Option<Seq<char>>) -> Option<Seq<char>> {
    match a {
        Some(t) => Some(t),
        None => b,
    }
}

/// The Linear priority that a request asks for, as a document.
pub open spec fn requested_priority(bucket: Option<Seq<char>>) -> Option<JsonView> {
    match bucket {
        Some(b) => match bucket_priority(b) {
            Some(p) => Some(JsonView::Number(number_of(p as u64))),
            None => None,
        },
        None => None,
    }
}

/// The members of the `IssueCreateInput` of a request, for an issue of `team`,
/// with `project` in place of a project that the request does not name.
pub open spec fn create_input(
    req: CreateRequestView,
    team: Seq<char>,
    project: Option<Seq<char>>,
    map: StatusMapView,
) -> Result<Map<Seq<char>, JsonView>, BackendErrorView> {
    let m1 = Map::empty().insert("teamId"@, JsonView::Text(team)).insert(
        "title"@,
        JsonView::Text(trimmed(req.title)),
    );
    let m2 = with_member(m1, "description"@, as_document(non_blank(req.body)));
    let m3 = with_member(m2, "projectId"@, as_document(first_of(req.project_id, project)));
    let m4 = with_member(m3, "priority"@, requested_priority(req.priority));
    match req.status {
        Some(word) => match status_word(word) {
            Some(status) => match map.target(status) {
                Some(id) => Ok(m4.insert("stateId"@, JsonView::Text(id))),
                None => Err(unmapped_status(status)),
            },
            None => Err(BackendErrorView::InvalidRequest("unknown status "@ + debug_text(word))),
        },
        None => Ok(m4),
    }
}

/// The members of the `IssueCreateInput` of a request, for an issue of `team`,
/// with `project` in place of a project that the request does not name.
pub fn build_create_input(
    req: &CreateRequest,
    team: &str,
    project: Option<&str>,
    map: &StatusMap,
) -> (input: Result<StringMap<Json>, BackendError>)
    ensures
        match input {
            Ok(members) => create_input(
                req@,
                team@,
                match project {
                    Some(p) => Some(p@),
                    None => None,
                },
                map@,
            ) == Ok::<Map<Seq<char>, JsonView>, BackendErrorView>(object_view(members.entries@)),
            Err(e) => create_input(
                req@,
                team@,
                match project {
                    Some(p) => Some(p@),
                    None => None,
                },
                map@,
            ) == Err::<Map<Seq<char>, JsonView>, BackendErrorView>(e@),
        },
{
    let mut input = no_members();
    set_member(&mut input, "teamId", Json::text(team));
    set_member(&mut input, "title", Json::text(trim(req.title.as_str()).as_str()));

    if let Some(body) = keep_non_blank(opt_str(&req.body)) {
        set_member(&mut input, "description", Json::text(body.as_str()));
    }
    let project = match &req.project_id {
        Some(p) => Some(p.as_str()),
        None => project,
    };
    set_optional(&mut input, "projectId", text_document(project));
    let priority = match &req.priority {
        Some(bucket) => match priority_bucket_to_linear(bucket.as_str()) {
            Some(p) => Some(Json::from_u64(p as u64)),
            None => None,
        },
        None => None,
    };
    set_optional(&mut input, "priority", priority);
    if let Some(word) = &req.status {
        match parse_subject_status(word.as_str()) {
            Some(status) => match map.animus_to_linear_state_id(status) {
                Some(id) => {
                    set_member(&mut input, "stateId", Json::text(id));
                },
                None => {
                    return Err(unmapped(status));
                },
            },
            None => {
                let mut message = "unknown status ".to_owned();
                message.append(quoted(word.as_str()).as_str());
                return Err(BackendError::InvalidRequest(message));
            },
        }
    }
    Ok(input)
}

}
