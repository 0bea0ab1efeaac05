//! Linear issues read as subjects.
//!
//! A subject's id is `linear:<identifier>`, as in `linear:ENG-123`, so that it
//! can be routed by its prefix.

use vstd::prelude::*;

use crate::json::{
    array_view, json_text, json_view, lemma_array_view, member, member2, number_u64, object_view,
    set_member, text_member, text_of, Json, JsonView,
};
use crate::status_map::{type_status, type_to_animus, StatusMap, StatusMapView};
use crate::string_map::StringMap;
use crate::subject::{
    id_texts, BackendError, BackendErrorView, Subject, SubjectId, SubjectStatus, SubjectView,
};
use crate::text::{
    ascii_lowered, contains, debug_text, lowered_chars, occurs_in, opt_text, quoted, same_text,
    strip_prefix, texts,
};
use crate::timestamp::{rfc3339_instant, Timestamp};

verus! {

/// What the ids of Linear's subjects start with.
pub const ID_PREFIX: &'static str = "linear:";

/// The kind of Linear's subjects.
pub const SUBJECT_KIND: &'static str = "issue";

/// The Linear priority of a bucket. Linear counts 1 for urgent, 2 for high, 3
/// for normal and 4 for low; its 0, for no priority, belongs to no bucket.
pub open spec fn bucket_priority(bucket: Seq<char>) -> Option<i64> {
    if bucket == "p0"@ || bucket == "P0"@ {
        Some(1)
    } else if bucket == "p1"@ || bucket == "P1"@ {
        Some(2)
    } else if bucket == "p2"@ || bucket == "P2"@ {
        Some(3)
    } else if bucket == "p3"@ || bucket == "P3"@ {
        Some(4)
    } else {
        None
    }
}

/// The Linear priority of a bucket, `p0` to `p3`. An unknown bucket has none,
/// so that Linear applies the team's default.
pub fn priority_bucket_to_linear(bucket: &str) -> (priority: Option<i64>)
    ensures
        priority == bucket_priority(bucket@),
{
    if same_text(bucket, "p0") || same_text(bucket, "P0") {
        Some(1)
    } else if same_text(bucket, "p1") || same_text(bucket, "P1") {
        Some(2)
    } else if same_text(bucket, "p2") || same_text(bucket, "P2") {
        Some(3)
    } else if same_text(bucket, "p3") || same_text(bucket, "P3") {
        Some(4)
    } else {
        None
    }
}

/// Whether Linear's priorities run against those of subjects. They do: a
/// subject's priority grows with urgency, Linear's falls.
pub const ANIMUS_PRIORITY_REVERSE: bool = true;

/// The subject priority of a Linear priority: 0 for none, else the other end
/// of the scale from 1 to 4. Other numbers are no priorities.
pub open spec fn animus_priority(linear: u64) -> Option<u8> {
    if linear > 4 {
        None
    } else if linear == 0 || !ANIMUS_PRIORITY_REVERSE {
        Some(linear as u8)
    } else {
        Some((5 - linear) as u8)
    }
}

/// The subject priority, from 0 (none) to 4 (critical), of a Linear priority.
/// Numbers that are no Linear priority give none.
pub fn linear_priority_to_animus(linear: u64) -> (priority: Option<u8>)
    ensures
        priority == animus_priority(linear),
{
    if linear > 4 {
        None
    } else if linear == 0 || !ANIMUS_PRIORITY_REVERSE {
        Some(linear as u8)
    } else {
        Some((5 - linear) as u8)
    }
}

/// The id of the subject of the issue with this identifier.
pub open spec fn subject_id_of(identifier: Seq<char>) -> Seq<char> {
    ID_PREFIX@ + identifier
}

/// The identifier of the issue with this subject id.
pub open spec fn native_id_of(id: Seq<char>) -> Result<Seq<char>, BackendErrorView> {
    if ID_PREFIX@.is_prefix_of(id) {
        Ok(id.skip(ID_PREFIX@.len() as int))
    } else {
        Err(
            BackendErrorView::InvalidRequest(
                "subject id "@ + debug_text(id)
                    + " is not a linear id (expected `linear:<identifier>` prefix)"@,
            ),
        )
    }
}

/// The id of the subject of the issue with this identifier.
fn subject_id(identifier: &str) -> (id: SubjectId)
    ensures
        id@ == subject_id_of(identifier@),
{
    let mut raw = ID_PREFIX.to_owned();
    raw.append(identifier);
    SubjectId { raw }
}

/// The identifier of the issue with this subject id, `ENG-123` for
/// `linear:ENG-123`.
pub fn native_id(id: &SubjectId) -> (native: Result<String, BackendError>)
    ensures
        match native {
            Ok(n) => native_id_of(id@) == Ok::<Seq<char>, BackendErrorView>(n@),
            Err(e) => native_id_of(id@) == Err::<Seq<char>, BackendErrorView>(e@),
        },
{
    match strip_prefix(id.as_str(), ID_PREFIX) {
        Some(rest) => {
            assert(id@.skip(ID_PREFIX@.len() as int) =~= rest@);
            Ok(rest)
        },
        None => {
            let mut message = "subject id ".to_owned();
            message.append(quoted(id.as_str()).as_str());
            message.append(" is not a linear id (expected `linear:<identifier>` prefix)");
            Err(BackendError::InvalidRequest(message))
        },
    }
}

/// The instant that a member of an issue holds.
pub open spec fn timestamp_of(value: Option<JsonView>) -> Result<(i64, u32), BackendErrorView> {
    match text_of(value) {
        Some(raw) => match rfc3339_instant(raw) {
            Ok(instant) => Ok(instant),
            Err(problem) => Err(
                BackendErrorView::Other(
                    "invalid timestamp "@ + debug_text(raw) + ": "@ + problem,
                ),
            ),
        },
        None => Err(BackendErrorView::Other("missing timestamp"@)),
    }
}

/// The instant that a member of an issue holds.
pub fn parse_timestamp(value: Option<&Json>) -> (instant: Result<Timestamp, BackendError>)
    ensures
        match instant {
            Ok(t) => timestamp_of(opt_member(value)) == Ok::<(i64, u32), BackendErrorView>(t@),
            Err(e) => timestamp_of(opt_member(value)) == Err::<(i64, u32), BackendErrorView>(e@),
        },
{
    let raw = match text_or_none(value) {
        Some(raw) => raw,
        None => {
            return Err(BackendError::Other("missing timestamp".to_owned()));
        },
    };
    match Timestamp::parse(raw) {
        Ok(t) => Ok(t),
        Err(problem) => {
            let mut message = "invalid timestamp ".to_owned();
            message.append(quoted(raw).as_str());
            message.append(": ");
            message.append(problem.as_str());
            Err(BackendError::Other(message))
        },
    }
}

/// What an optional member says.
pub open spec fn opt_member(value: Option<&Json>) -> Option<JsonView> {
    match value {
        Some(j) => Some(j@),
        None => None,
    }
}

fn text_or_none<'a>(value: Option<&'a Json>) -> (text: Option<&'a str>)
    ensures
        match text {
            Some(t) => text_of(opt_member(value)) == Some(t@),
            None => text_of(opt_member(value)) is None,
        },
{
    match value {
        Some(j) => j.as_str(),
        None => None,
    }
}

fn owned(text: Option<&str>) -> (copy: Option<String>)
    ensures
        match text {
            Some(t) => opt_text(copy) == Some(t@),
            None => copy is None,
        },
{
    match text {
        Some(t) => Some(t.to_owned()),
        None => None,
    }
}

fn get2<'a>(j: &'a Json, outer: &str, inner: &str) -> (value: Option<&'a Json>)
    ensures
        opt_member(value) == member2(j@, outer@, inner@),
{
    match j.get(outer) {
        Some(m) => m.get(inner),
        None => None,
    }
}

/// The error that a message of Linear's stands for.
pub open spec fn graphql_error(message: Seq<char>) -> BackendErrorView {
    let lower = ascii_lowered(message);
    if occurs_in(lower, "authentication"@) || occurs_in(lower, "unauthorized"@) {
        BackendErrorView::PermissionDenied(message)
    } else if occurs_in(lower, "not found"@) {
        BackendErrorView::NotFound(message)
    } else {
        BackendErrorView::Unavailable(message)
    }
}

/// The error that a message of Linear's stands for.
pub fn map_graphql_err(message: String) -> (error: BackendError)
    ensures
        error@ == graphql_error(message@),
{
    let lower = lowered_chars(message.as_str());
    if contains(&lower, "authentication") || contains(&lower, "unauthorized") {
        BackendError::PermissionDenied(message)
    } else if contains(&lower, "not found") {
        BackendError::NotFound(message)
    } else {
        BackendError::Unavailable(message)
    }
}

/// The text, or the empty text where there is none.
pub open spec fn or_empty(text: Option<Seq<char>>) -> Seq<char> {
    match text {
        Some(t) => t,
        None => Seq::empty(),
    }
}

/// The status of an issue: that of its state's id, else of its state's name,
/// else of its state's type.
pub open spec fn issue_status(issue: JsonView, map: StatusMapView) -> SubjectStatus {
    let by_id = match text_of(member2(issue, "state"@, "id"@)) {
        Some(id) => map.status_of(id),
        None => None,
    };
    match by_id {
        Some(status) => status,
        None => match map.status_named(or_empty(text_of(member2(issue, "state"@, "name"@)))) {
            Some(status) => status,
            None => type_status(or_empty(text_of(member2(issue, "state"@, "type"@)))),
        },
    }
}

/// The priority of an issue on the scale of subjects.
pub open spec fn issue_priority(issue: JsonView) -> Option<u8> {
    match member(issue, "priority"@) {
        Some(JsonView::Number(n)) => match number_u64(n) {
            Some(linear) => animus_priority(linear),
            None => None,
        },
        _ => None,
    }
}

/// The assignee of an issue, by email if there is one, else by name.
pub open spec fn issue_assignee(issue: JsonView) -> Option<Seq<char>> {
    match member(issue, "assignee"@) {
        Some(assignee) => match text_member(assignee, "email"@) {
            Some(email) => Some(email),
            None => text_member(assignee, "name"@),
        },
        None => None,
    }
}

/// The strings under `key` in the nodes that have one.
pub open spec fn node_texts(nodes: Seq<JsonView>, key: Seq<char>) -> Seq<Seq<char>>
    decreases nodes.len(),
{
    if nodes.len() == 0 {
        Seq::empty()
    } else {
        let before = node_texts(nodes.drop_last(), key);
        match text_member(nodes.last(), key) {
            Some(t) => before.push(t),
            None => before,
        }
    }
}

/// The strings under `key` in the nodes of a connection of an issue.
pub open spec fn connection_texts(
    issue: JsonView,
    connection: Seq<char>,
    key: Seq<char>,
) -> Seq<Seq<char>> {
    match member2(issue, connection, "nodes"@) {
        Some(JsonView::Array(nodes)) => node_texts(nodes, key),
        _ => Seq::empty(),
    }
}

/// `members` with a member set where there is a value for it.
pub open spec fn with_member(
    members: Map<Seq<char>, JsonView>,
    key: Seq<char>,
    value: Option<JsonView>,
) -> Map<Seq<char>, JsonView> {
    match value {
        Some(v) => members.insert(key, v),
        None => members,
    }
}

/// The string as a document.
pub open spec fn as_document(text: Option<Seq<char>>) -> Option<JsonView> {
    match text {
        Some(t) => Some(JsonView::Text(t)),
        None => None,
    }
}

/// The Linear-specific fields of an issue.
pub open spec fn issue_custom(issue: JsonView) -> Map<Seq<char>, JsonView> {
    let state_type = as_document(text_of(member2(issue, "state"@, "type"@)));
    let state_name = as_document(text_of(member2(issue, "state"@, "name"@)));
    let uuid = as_document(text_member(issue, "id"@));
    with_member(
        with_member(
            with_member(Map::empty(), "linear_state_type"@, state_type),
            "linear_state_name"@,
            state_name,
        ),
        "linear_uuid"@,
        uuid,
    )
}

/// A text that is there and not empty.
pub open spec fn non_blank(text: Option<Seq<char>>) -> Option<Seq<char>> {
    match text {
        Some(t) if t.len() > 0 => Some(t),
        _ => None,
    }
}

/// The error for an issue without an identifier.
pub open spec fn missing_identifier(issue: JsonView) -> BackendErrorView {
    BackendErrorView::Other("linear issue node is missing `identifier`: "@ + json_text(issue))
}

/// The subject of an issue that was created and last changed at these instants.
pub open spec fn timed_subject(
    issue: JsonView,
    map: StatusMapView,
    created_at: (i64, u32),
    updated_at: (i64, u32),
) -> Result<SubjectView, BackendErrorView> {
    match text_member(issue, "identifier"@) {
        None => Err(missing_identifier(issue)),
        Some(identifier) => Ok(
            SubjectView {
                id: subject_id_of(identifier),
                kind: SUBJECT_KIND@,
                title: or_empty(text_member(issue, "title"@)),
                description: non_blank(text_member(issue, "description"@)),
                status: issue_status(issue, map),
                priority: issue_priority(issue),
                assignee: issue_assignee(issue),
                labels: connection_texts(issue, "labels"@, "name"@),
                parent: match text_of(member2(issue, "parent"@, "identifier"@)) {
                    Some(parent) => Some(subject_id_of(parent)),
                    None => None,
                },
                children: connection_texts(issue, "children"@, "identifier"@).map_values(
                    |child: Seq<char>| subject_id_of(child),
                ),
                url: text_member(issue, "url"@),
                created_at,
                updated_at,
                custom: issue_custom(issue),
                native_status: non_blank(text_of(member2(issue, "state"@, "name"@))),
                status_metadata: JsonView::Null,
                attachments: Seq::empty(),
            },
        ),
    }
}

/// The subject of an issue. A missing identifier comes before a bad creation
/// time, and that before a bad time of change.
pub open spec fn issue_subject(issue: JsonView, map: StatusMapView) -> Result<
    SubjectView,
    BackendErrorView,
> {
    match (
        text_member(issue, "identifier"@),
        timestamp_of(member(issue, "createdAt"@)),
        timestamp_of(member(issue, "updatedAt"@)),
    ) {
        (None, _, _) => Err(missing_identifier(issue)),
        (_, Err(e), _) => Err(e),
        (_, _, Err(e)) => Err(e),
        (_, Ok(created_at), Ok(updated_at)) => timed_subject(issue, map, created_at, updated_at),
    }
}

/// The strings under `key` in the nodes of a connection of an issue.
fn collect_texts(issue: &Json, connection: &str, key: &str) -> (found: Vec<String>)
    ensures
        texts(found@) == connection_texts(issue@, connection@, key@),
{
    let mut found: Vec<String> = Vec::new();
    assert(texts(found@) =~= Seq::empty());
    let nodes = match get2(issue, connection, "nodes") {
        Some(j) => match j.as_array() {
            Some(nodes) => nodes,
            None => {
                return found;
            },
        },
        None => {
            return found;
        },
    };
    let ghost views = array_view(nodes@);
    proof {
        lemma_array_view(nodes@);
    }
    let mut i: usize = 0;
    while i < nodes.len()
        invariant
            i <= nodes.len(),
            views == array_view(nodes@),
            views.len() == nodes@.len(),
            forall|k: int| 0 <= k < nodes@.len() ==> #[trigger] views[k] == json_view(nodes@[k]),
            texts(found@) == node_texts(views.take(i as int), key@),
        decreases nodes.len() - i,
    {
        assert(views.take(i + 1).drop_last() =~= views.take(i as int));
        assert(views[i as int] == json_view(nodes@[i as int]));
        if let Some(t) = text_or_none(nodes[i].get(key)) {
            let ghost before = found@;
            found.push(t.to_owned());
            assert(texts(found@) =~= texts(before).push(t@));
        }
        i = i + 1;
    }
    assert(views.take(i as int) =~= views);
    found
}

/// The subject ids of identifiers.
fn subject_ids(identifiers: &Vec<String>) -> (ids: Vec<SubjectId>)
    ensures
        id_texts(ids@) == texts(identifiers@).map_values(|i: Seq<char>| subject_id_of(i)),
{
    let mut ids: Vec<SubjectId> = Vec::new();
    let mut i: usize = 0;
    while i < identifiers.len()
        invariant
            i <= identifiers.len(),
            ids@.len() == i,
            forall|k: int| 0 <= k < i ==> (#[trigger] ids@[k])@ == subject_id_of(identifiers@[k]@),
        decreases identifiers.len() - i,
    {
        ids.push(subject_id(identifiers[i].as_str()));
        i = i + 1;
    }
    assert(id_texts(ids@) =~= texts(identifiers@).map_values(|i: Seq<char>| subject_id_of(i)));
    ids
}

/// Sets a member where there is a value for it.
pub(crate) fn set_optional(members: &mut StringMap<Json>, key: &str, value: Option<Json>)
    ensures
        object_view(final(members).entries@) == with_member(
            object_view(old(members).entries@),
            key@,
            match value {
                Some(v) => Some(v@),
                None => None,
            },
        ),
{
    if let Some(v) = value {
        set_member(members, key, v);
    }
}

pub(crate) fn no_members() -> (members: StringMap<Json>)
    ensures
        object_view(members.entries@) == Map::<Seq<char>, JsonView>::empty(),
{
    StringMap { entries: Vec::new() }
}

pub(crate) fn text_document(text: Option<&str>) -> (j: Option<Json>)
    ensures
        match j {
            Some(d) => text is Some && d@ == JsonView::Text(text->0@),
            None => text is None,
        },
{
    match text {
        Some(t) => Some(Json::text(t)),
        None => None,
    }
}

pub(crate) fn keep_non_blank(text: Option<&str>) -> (kept: Option<String>)
    ensures
        opt_text(kept) == (match text {
            Some(t) => non_blank(Some(t@)),
            None => None,
        }),
{
    match text {
        Some(t) => if t.is_empty() {
            None
        } else {
            Some(t.to_owned())
        },
        None => None,
    }
}

fn text_or_empty<'a>(text: Option<&'a str>) -> (t: &'a str)
    ensures
        t@ == (match text {
            Some(s) => s@,
            None => Seq::empty(),
        }),
{
    match text {
        Some(s) => s,
        None => {
            proof {
                reveal_strlit("");
            }
            assert(""@ =~= Seq::<char>::empty());
            ""
        },
    }
}

fn read_status(issue: &Json, map: &StatusMap) -> (status: SubjectStatus)
    ensures
        status == issue_status(issue@, map@),
{
    if let Some(id) = text_or_none(get2(issue, "state", "id")) {
        if let Some(status) = map.linear_to_animus(id) {
            return status;
        }
    }
    let name = text_or_empty(text_or_none(get2(issue, "state", "name")));
    if let Some(status) = map.linear_name_to_animus(name) {
        return status;
    }
    type_to_animus(text_or_empty(text_or_none(get2(issue, "state", "type"))))
}

fn read_priority(issue: &Json) -> (priority: Option<u8>)
    ensures
        priority == issue_priority(issue@),
{
    match issue.get("priority") {
        Some(p) => match p.as_u64() {
            Some(linear) => linear_priority_to_animus(linear),
            None => None,
        },
        None => None,
    }
}

fn read_assignee(issue: &Json) -> (assignee: Option<String>)
    ensures
        opt_text(assignee) == issue_assignee(issue@),
{
    match issue.get("assignee") {
        Some(a) => match text_or_none(a.get("email")) {
            Some(email) => Some(email.to_owned()),
            None => owned(text_or_none(a.get("name"))),
        },
        None => None,
    }
}

fn read_custom(issue: &Json) -> (custom: StringMap<Json>)
    ensures
        object_view(custom.entries@) == issue_custom(issue@),
{
    let mut custom = no_members();
    set_optional(
        &mut custom,
        "linear_state_type",
        text_document(text_or_none(get2(issue, "state", "type"))),
    );
    set_optional(
        &mut custom,
        "linear_state_name",
        text_document(text_or_none(get2(issue, "state", "name"))),
    );
    set_optional(&mut custom, "linear_uuid", text_document(text_or_none(issue.get("id"))));
    custom
}

fn no_identifier(issue: &Json) -> (error: BackendError)
    ensures
        error@ == missing_identifier(issue@),
{
    let mut message = "linear issue node is missing `identifier`: ".to_owned();
    message.append(issue.to_text().as_str());
    BackendError::Other(message)
}

/// The subject of an issue that was created and last changed at these instants.
/// The identifier has to be there; what else is missing is left out.
pub fn issue_to_subject_at(
    issue: &Json,
    map: &StatusMap,
    created_at: Timestamp,
    updated_at: Timestamp,
) -> (subject: Result<Subject, BackendError>)
    ensures
        match subject {
            Ok(s) => timed_subject(issue@, map@, created_at@, updated_at@) == Ok::<
                SubjectView,
                BackendErrorView,
            >(s@),
            Err(e) => timed_subject(issue@, map@, created_at@, updated_at@) == Err::<
                SubjectView,
                BackendErrorView,
            >(e@),
        },
{
    let identifier = match text_or_none(issue.get("identifier")) {
        Some(identifier) => identifier,
        None => {
            return Err(no_identifier(issue));
        },
    };
    let parent = match text_or_none(get2(issue, "parent", "identifier")) {
        Some(parent) => Some(subject_id(parent)),
        None => None,
    };
    Ok(
        Subject {
            id: subject_id(identifier),
            kind: SUBJECT_KIND.to_owned(),
            title: text_or_empty(text_or_none(issue.get("title"))).to_owned(),
            description: keep_non_blank(text_or_none(issue.get("description"))),
            status: read_status(issue, map),
            priority: read_priority(issue),
            assignee: read_assignee(issue),
            labels: collect_texts(issue, "labels", "name"),
            parent,
            children: subject_ids(&collect_texts(issue, "children", "identifier")),
            url: owned(text_or_none(issue.get("url"))),
            created_at,
            updated_at,
            custom: read_custom(issue),
            native_status: keep_non_blank(text_or_none(get2(issue, "state", "name"))),
            status_metadata: Json::Null,
            attachments: Vec::new(),
        },
    )
}

/// The subject of an issue. The identifier and both timestamps have to be
/// there; what else is missing is left out.
pub fn issue_to_subject(issue: &Json, map: &StatusMap) -> (subject: Result<Subject, BackendError>)
    ensures
        match subject {
            Ok(s) => issue_subject(issue@, map@) == Ok::<SubjectView, BackendErrorView>(s@),
            Err(e) => issue_subject(issue@, map@) == Err::<SubjectView, BackendErrorView>(e@),
        },
{
    if text_or_none(issue.get("identifier")).is_none() {
        return Err(no_identifier(issue));
    }
    let created_at = match parse_timestamp(issue.get("createdAt")) {
        Ok(t) => t,
        Err(e) => {
            return Err(e);
        },
    };
    let updated_at = match parse_timestamp(issue.get("updatedAt")) {
        Ok(t) => t,
        Err(e) => {
            return Err(e);
        },
    };
    issue_to_subject_at(issue, map, created_at, updated_at)
}

}
