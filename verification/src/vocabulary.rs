//! What the words mean that the other laws are stated in: tables, accessors,
//! views and operations on text.

use vstd::prelude::*;

use crate::backend::{
    after_learning, backend_of, begin, outcome_view, schema_of, BackendView, Call, CallView,
    Pending, PendingView, Reply, ReplyView, Step, StepView,
};
use crate::client::{
    client_of, double_rank, envelope, error_messages, header_safe, opt_json, position_eq, position_lt,
    request_headers, response_of, state_views, token_safe, ClientError, GraphQlError, GraphQlRequest,
    GraphQlResponse, LinearWorkflowState, RequestView, ResponseView, WorkflowStateView,
};
use crate::config::{
    document_overrides, env_config, env_overrides, non_empty, status_word, ConfigView, EnvVars,
    LinearConfig,
};
use crate::input::CreateRequest;
use crate::issue::{animus_priority, graphql_error, opt_member};
use crate::json::{
    array_view, is_true, json_view, lemma_array_view, member, member2, non_null, object1, object2,
    object_view, text_array, text_json, text_member, text_of, text_or_null, Json, JsonView,
};
use crate::status_map::{state_status, type_status, workflow_map, StatusMapView};
use crate::string_map::{distinct_keys, lemma_upserted, pairs_map, upserted, StringMap};
use crate::subject::{
    id_texts, subject_views, BackendError, BackendErrorView, CustomFieldKind, CustomFieldSpec,
    HealthCheckResult, Subject, SubjectFilter, SubjectId, SubjectList, SubjectPatch, SubjectSchema,
    SubjectStatus,
};
use crate::text::{ascii_lowered, joined, occurs_at, occurs_in, opt_text, texts, white_space};
use crate::timestamp::representable;

verus! {

/// The status of a state by its type. Unknown types count as ready.
pub proof fn law_type_statuses(state_type: Seq<char>)
    ensures
        state_type == "triage"@ || state_type == "backlog"@ || state_type == "unstarted"@
            ==> type_status(state_type) == SubjectStatus::Ready,
        state_type == "started"@ <==> type_status(state_type) == SubjectStatus::InProgress,
        state_type == "completed"@ <==> type_status(state_type) == SubjectStatus::Done,
        state_type == "cancelled"@ || state_type == "canceled"@ <==> type_status(state_type)
            == SubjectStatus::Cancelled,
        type_status(state_type) != SubjectStatus::Blocked,
{
    reveal_strlit("triage");
    reveal_strlit("backlog");
    reveal_strlit("unstarted");
    reveal_strlit("started");
    reveal_strlit("completed");
    reveal_strlit("cancelled");
    reveal_strlit("canceled");
    assert("triage"@.len() == 6 && "canceled"@.len() == 8);
    assert("backlog"@[0] == 'b' && "started"@[0] == 's' && "unstarted"@[0] == 'u');
    assert("backlog"@.len() == 7 && "started"@.len() == 7 && "unstarted"@.len() == 9);
    assert("completed"@.len() == 9 && "cancelled"@.len() == 9);
    assert("completed"@[1] == 'o' && "cancelled"@[1] == 'a' && "cancelled"@[0] == 'c');
    assert("completed"@[0] == 'c');
}

/// A state's override comes before its type.
pub proof fn law_overrides_come_first(
    state: WorkflowStateView,
    overrides: Map<Seq<char>, SubjectStatus>,
)
    ensures
        overrides.contains_key(state.name) ==> state_status(state, overrides)
            == overrides[state.name],
        !overrides.contains_key(state.name) ==> state_status(state, overrides) == type_status(
            state.state_type,
        ),
{
}

/// The words for each status, as its name or in kebab or snake case.
pub proof fn law_status_words(word: Seq<char>)
    ensures
        status_word(word) == Some(SubjectStatus::Ready) <==> word == "Ready"@ || word == "ready"@,
        status_word(word) == Some(SubjectStatus::InProgress) <==> word == "InProgress"@ || word
            == "in-progress"@ || word == "in_progress"@,
        status_word(word) == Some(SubjectStatus::Blocked) <==> word == "Blocked"@ || word
            == "blocked"@,
        status_word(word) == Some(SubjectStatus::Done) <==> word == "Done"@ || word == "done"@,
        status_word(word) == Some(SubjectStatus::Cancelled) <==> word == "Cancelled"@ || word
            == "cancelled"@ || word == "Canceled"@ || word == "canceled"@,
{
    reveal_strlit("Ready");
    reveal_strlit("ready");
    reveal_strlit("InProgress");
    reveal_strlit("in-progress");
    reveal_strlit("in_progress");
    reveal_strlit("Blocked");
    reveal_strlit("blocked");
    reveal_strlit("Done");
    reveal_strlit("done");
    reveal_strlit("Cancelled");
    reveal_strlit("cancelled");
    reveal_strlit("Canceled");
    reveal_strlit("canceled");
    assert("Ready"@.len() == 5 && "ready"@.len() == 5);
    assert("InProgress"@.len() == 10 && "in-progress"@.len() == 11 && "in_progress"@.len() == 11);
    assert("Blocked"@.len() == 7 && "blocked"@.len() == 7);
    assert("Done"@.len() == 4 && "done"@.len() == 4);
    assert("Cancelled"@.len() == 9 && "cancelled"@.len() == 9);
    assert("Canceled"@.len() == 8 && "canceled"@.len() == 8);
}

/// The overrides of a document: those members of an object that are words for
/// a status, each with it. Of the variable, an empty value and text that is no
/// JSON give none.
pub proof fn law_overrides_are_read(
    members: Map<Seq<char>, JsonView>,
    document: JsonView,
    text: Seq<char>,
    name: Seq<char>,
    status: SubjectStatus,
)
    ensures
        ({
            let read = document_overrides(Some(JsonView::Object(members)));
            read.contains_key(name) && read[name] == status <==> {
                &&& members.contains_key(name)
                &&& members[name] is Text
                &&& status_word(members[name]->Text_0) == Some(status)
            }
        }),
        !document_overrides(None).contains_key(name),
        !(document is Object) ==> !document_overrides(Some(document)).contains_key(name),
        !env_overrides(None).contains_key(name),
        text.len() == 0 ==> !env_overrides(Some(text)).contains_key(name),
        text.len() > 0 ==> env_overrides(Some(text)) == document_overrides(text_json(text)),
        text.len() > 0 ==> non_empty(Some(text)) == Some(text),
        text.len() == 0 ==> non_empty(Some(text)) is None,
        non_empty(None) is None,
{
}

/// The client of a configuration has all of it that requests need.
pub proof fn law_client_keeps_the_configuration(config: ConfigView, value: Seq<char>, c: char)
    ensures
        client_of(config).api_url == config.api_url,
        client_of(config).team_id == config.team_id,
        client_of(config).project_id == config.project_id,
        client_of(config).token == config.api_token,
        client_of(config).has_token() <==> config.api_token is Some,
        config.api_token is None ==> token_safe(config),
        config.api_token is Some ==> (token_safe(config) <==> header_safe(config.api_token->0)),
        header_safe(Seq::empty()),
        ({
            let n = c as u32;
            header_safe(value.push(c)) <==> header_safe(value) && (n == 9 || n >= 32 && n != 127)
        }),
        request_headers(None).len() == 1,
        request_headers(Some(value)).len() == 2,
{
    let longer = value.push(c);
    assert(longer[value.len() as int] == c);
    if header_safe(longer) {
        assert forall|i: int| 0 <= i < value.len() implies {
            ||| (#[trigger] value[i]) as u32 == 9
            ||| value[i] as u32 >= 32 && value[i] as u32 != 127
        } by {
            assert(longer[i] == value[i]);
        }
    }
}

/// Positions compare as doubles do: by their bits where both are positive, the
/// other way round where both are negative, a negative one before a positive
/// one unless both are zero, and not at all where one is NaN.
pub proof fn law_positions_compare_as_doubles(a: u64, b: u64)
    ensures
        ({
            let sign = 0x8000_0000_0000_0000u64;
            let infinity = 0x7ff0_0000_0000_0000u64;
            let less = position_lt(double_rank(a), double_rank(b));
            let equal = position_eq(double_rank(a), double_rank(b));
            &&& a <= infinity && b <= infinity ==> (less <==> a < b) && (equal <==> a == b)
            &&& sign <= a <= sign + infinity && sign <= b <= sign + infinity ==> (less <==> a > b)
                && (equal <==> a == b)
            &&& sign <= a <= sign + infinity && b <= infinity ==> (less <==> a > sign || b > 0)
                && (equal <==> a == sign && b == 0)
            &&& a <= infinity && sign <= b <= sign + infinity ==> !less && (equal <==> a == 0 && b
                == sign)
            &&& infinity < a < sign || a > sign + infinity || infinity < b < sign || b > sign
                + infinity ==> !less && !equal
        }),
{
}

/// A Linear priority from 1 to 4 is five less it, 0 is 0, and no other number
/// is a priority.
pub proof fn law_priorities_add_up_to_five(linear: u64)
    ensures
        1 <= linear <= 4 ==> animus_priority(linear) is Some && animus_priority(linear)->0 + linear
            == 5,
        linear == 0 ==> animus_priority(linear) == Some(0u8),
        linear > 4 ==> animus_priority(linear) is None,
{
}

/// What the schema says, in full.
pub proof fn law_schema(b: BackendView, status: SubjectStatus)
    ensures
        ({
            let schema = schema_of(b);
            &&& schema.kinds == seq!["issue"@]
            &&& schema.status_values.contains(status)
            &&& schema.status_values.len() == 5
            &&& !schema.supports_watch && schema.supports_create && !schema.supports_delete
                && schema.supports_pagination
            &&& schema.status_dispatch_hints.len() == 0
            &&& b.status_map is Some ==> schema.native_status_values == b.status_map->0.names
            &&& b.status_map is None ==> schema.native_status_values == seq![
                "Backlog"@,
                "Triage"@,
                "Todo"@,
                "In Progress"@,
                "In Review"@,
                "Blocked"@,
                "Done"@,
                "Cancelled"@,
                "Duplicate"@,
            ]
            &&& schema.custom_fields.len() == 4
            &&& schema.custom_fields[0].key == "priority"@
            &&& schema.custom_fields[0].kind == CustomFieldKind::Number
            &&& schema.custom_fields[0].values is None
            &&& schema.custom_fields[1].key == "linear_state_name"@
            &&& schema.custom_fields[1].kind == CustomFieldKind::String
            &&& schema.custom_fields[1].values is None
            &&& schema.custom_fields[2].key == "linear_state_type"@
            &&& schema.custom_fields[2].kind == CustomFieldKind::Enum
            &&& schema.custom_fields[2].values == Some(
                seq![
                    "backlog"@,
                    "unstarted"@,
                    "started"@,
                    "completed"@,
                    "canceled"@,
                    "triage"@,
                ],
            )
            &&& schema.custom_fields[3].key == "linear_uuid"@
            &&& schema.custom_fields[3].kind == CustomFieldKind::String
            &&& schema.custom_fields[3].values is None
        }),
{
    let values = schema_of(b).status_values;
    assert(values[0] == SubjectStatus::Ready && values[1] == SubjectStatus::InProgress);
    assert(values[2] == SubjectStatus::Blocked && values[3] == SubjectStatus::Done);
    assert(values[4] == SubjectStatus::Cancelled);
}

/// The map of a workflow names its states as they are listed, and what it says
/// is what its parts say.
pub proof fn law_workflow_names(
    states: Seq<WorkflowStateView>,
    overrides: Map<Seq<char>, SubjectStatus>,
    map: StatusMapView,
    status: SubjectStatus,
    i: int,
)
    ensures
        workflow_map(states, overrides).names.len() == states.len(),
        0 <= i < states.len() ==> workflow_map(states, overrides).names[i] == states[i].name,
        map.targets.contains_key(status) ==> map.target(status) == Some(map.targets[status]),
        !map.targets.contains_key(status) ==> map.target(status) is None,
{
}

/// What kind of error a message stands for, by the words in it: one for a
/// refused token, else one for something that is not there, else a service
/// that is not available.
pub proof fn law_kinds_of_errors(message: Seq<char>)
    ensures
        ({
            let lower = ascii_lowered(message);
            let refused = occurs_in(lower, "authentication"@) || occurs_in(
                lower,
                "unauthorized"@,
            );
            let absent = occurs_in(lower, "not found"@);
            graphql_error(message) == (if refused {
                BackendErrorView::PermissionDenied(message)
            } else if absent {
                BackendErrorView::NotFound(message)
            } else {
                BackendErrorView::Unavailable(message)
            })
        }),
{
}

/// Lower case changes the letters from A to Z, and nothing else.
pub proof fn law_lower_case(text: Seq<char>, i: int)
    requires
        0 <= i < text.len(),
    ensures
        ascii_lowered(text).len() == text.len(),
        65 <= text[i] as u32 <= 90 ==> ascii_lowered(text)[i] as u32 == text[i] as u32 + 32,
        !(65 <= text[i] as u32 <= 90) ==> ascii_lowered(text)[i] == text[i],
{
}

/// A part occurs in a text exactly if the text is something, the part, and
/// something.
pub proof fn law_occurrences(text: Seq<char>, part: Seq<char>, before: Seq<char>, after: Seq<char>)
    ensures
        text == before + part + after ==> occurs_in(text, part),
        occurs_in(text, part) ==> exists|at: int|
            #![trigger text.subrange(0, at)]
            0 <= at <= text.len() - part.len() && text == text.subrange(0, at) + part
                + text.subrange(at + part.len(), text.len() as int),
{
    if text == before + part + after {
        let at = before.len() as int;
        assert(text.subrange(at, at + part.len()) =~= part);
        assert(occurs_at(text, part, at));
    }
    if occurs_in(text, part) {
        let at = choose|at: int| occurs_at(text, part, at);
        let whole = text.subrange(0, at) + part + text.subrange(
            at + part.len(),
            text.len() as int,
        );
        assert forall|k: int| 0 <= k < text.len() implies text[k] == whole[k] by {
            if at <= k < at + part.len() {
                assert(text.subrange(at, at + part.len())[k - at] == part[k - at]);
            }
        }
        assert(text =~= whole);
    }
}

/// Joining puts the separator between neighbours only.
pub proof fn law_joining(parts: Seq<Seq<char>>, last: Seq<char>, separator: Seq<char>)
    ensures
        joined(Seq::empty(), separator).len() == 0,
        joined(seq![last], separator) == last,
        parts.len() > 0 ==> joined(parts.push(last), separator) == joined(parts, separator)
            + separator + last,
{
    assert(parts.push(last).drop_last() =~= parts);
}

/// The characters that count as white space.
pub proof fn law_white_space(c: char)
    ensures
        white_space(c) <==> {
            let n = c as u32;
            ||| n == 9 || n == 10 || n == 11 || n == 12 || n == 13 || n == 32 || n == 133
            ||| n == 160 || n == 5760 || 8192 <= n <= 8202 || n == 8232 || n == 8233
            ||| n == 8239 || n == 8287 || n == 12288
        },
{
}

/// Seconds and nanoseconds that make up an instant.
pub proof fn law_instants(secs: i64, nanos: u32)
    ensures
        representable(secs, nanos) <==> {
            &&& -8_334_601_228_800 <= secs <= 8_210_266_876_799
            &&& nanos < 1_000_000_000 || nanos < 2_000_000_000 && secs % 60 == 59
        },
{
}

/// How members of documents are read and documents put together.
pub proof fn law_documents(
    members: Map<Seq<char>, JsonView>,
    value: JsonView,
    other: JsonView,
    key: Seq<char>,
    inner: Seq<char>,
)
    ensures
        members.contains_key(key) ==> member(JsonView::Object(members), key) == Some(members[key]),
        !members.contains_key(key) ==> member(JsonView::Object(members), key) is None,
        !(value is Object) ==> member(value, key) is None,
        member(value, key) is Some ==> member2(value, key, inner) == member(
            member(value, key)->0,
            inner,
        ),
        member(value, key) is None ==> member2(value, key, inner) is None,
        text_of(Some(JsonView::Text(inner))) == Some(inner),
        !(value is Text) ==> text_of(Some(value)) is None,
        text_of(None) is None,
        text_member(value, key) == text_of(member(value, key)),
        is_true(Some(value)) <==> value == JsonView::Bool(true),
        !is_true(None),
        value is Null ==> non_null(Some(value)) is None,
        !(value is Null) ==> non_null(Some(value)) == Some(value),
        non_null(None) is None,
        object1(key, value) == JsonView::Object(map![key => value]),
        object2(key, value, inner, other) == JsonView::Object(
            map![key => value, inner => other],
        ),
        text_or_null(Some(key)) == JsonView::Text(key),
        text_or_null(None) == JsonView::Null,
{
}

/// Strings as an array, each as it is.
pub proof fn law_text_arrays(strings: Seq<Seq<char>>, i: int)
    ensures
        text_array(strings) is Array,
        text_array(strings)->Array_0.len() == strings.len(),
        0 <= i < strings.len() ==> text_array(strings)->Array_0[i] == JsonView::Text(strings[i]),
{
}

/// What a document says, layer by layer.
pub proof fn law_document_views(
    items: Vec<Json>,
    members: StringMap<Json>,
    text: String,
    n: serde_json::Number,
    truth: bool,
    entries: Seq<(String, Json)>,
    entry: (String, Json),
    i: int,
)
    ensures
        Json::Null@ == JsonView::Null,
        Json::Bool(truth)@ == JsonView::Bool(truth),
        Json::Number(n)@ == JsonView::Number(n),
        Json::String(text)@ == JsonView::Text(text@),
        Json::Array(items)@ == JsonView::Array(array_view(items@)),
        array_view(items@).len() == items@.len(),
        0 <= i < items@.len() ==> array_view(items@)[i] == json_view(items@[i]),
        Json::Object(members)@ == JsonView::Object(object_view(members.entries@)),
        object_view(Seq::empty()) == Map::<Seq<char>, JsonView>::empty(),
        object_view(entries.push(entry)) == object_view(entries).insert(entry.0@, entry.1@),
{
    lemma_array_view(items@);
    assert(entries.push(entry).drop_last() =~= entries);
}

/// What a list of pairs says: a later pair overrides an earlier one.
pub proof fn law_pairs<V>(
    pairs: Seq<(Seq<char>, V)>,
    map: StringMap<V>,
    key: Seq<char>,
    value: V,
    i: int,
)
    ensures
        pairs_map(Seq::<(Seq<char>, V)>::empty()) == Map::<Seq<char>, V>::empty(),
        pairs_map(pairs.push((key, value))) == pairs_map(pairs).insert(key, value),
        map@ == pairs_map(map.pairs()),
        map.pairs().len() == map.entries@.len(),
        0 <= i < map.entries@.len() ==> map.pairs()[i] == (map.entries@[i].0@, map.entries@[i].1),
        pairs_map(upserted(pairs, key, value)) == pairs_map(pairs).insert(key, value),
        distinct_keys(pairs) ==> distinct_keys(upserted(pairs, key, value)),
{
    assert(pairs.push((key, value)).drop_last() =~= pairs);
    lemma_upserted(pairs, key, value);
}

/// Strings are seen by their characters.
pub proof fn law_text_views(strings: Seq<String>, text: String, ids: Seq<SubjectId>, i: int)
    ensures
        texts(strings).len() == strings.len(),
        0 <= i < strings.len() ==> texts(strings)[i] == strings[i]@,
        opt_text(Some(text)) == Some(text@),
        opt_text(None) is None,
        id_texts(ids).len() == ids.len(),
        0 <= i < ids.len() ==> id_texts(ids)[i] == ids[i].raw@,
{
}

/// A filter is seen whole.
pub proof fn law_filter_view(filter: SubjectFilter)
    ensures
        filter@.status == filter.status@,
        filter@.native_status == opt_text(filter.native_status),
        filter@.assignee == texts(filter.assignee@),
        filter@.labels_any == texts(filter.labels_any@),
        filter@.labels_all == texts(filter.labels_all@),
        filter.updated_since is Some ==> filter@.updated_since == Some(filter.updated_since->0@),
        filter.updated_since is None ==> filter@.updated_since is None,
        filter@.limit == filter.limit,
        filter@.cursor == opt_text(filter.cursor),
{
}

/// A patch is seen whole.
pub proof fn law_patch_view(patch: SubjectPatch)
    ensures
        patch@.status == patch.status,
        patch.assignee is Some ==> patch@.assignee == Some(opt_text(patch.assignee->0)),
        patch.assignee is None ==> patch@.assignee is None,
        patch@.labels_add == texts(patch.labels_add@),
        patch@.labels_remove == texts(patch.labels_remove@),
        patch@.comment == opt_text(patch.comment),
        patch@.custom == object_view(patch.custom.entries@),
{
}

/// A creation is seen whole.
pub proof fn law_creation_view(req: CreateRequest)
    ensures
        req@.title == req.title@,
        req@.body == opt_text(req.body),
        req@.status == opt_text(req.status),
        req@.priority == opt_text(req.priority),
        req@.labels == texts(req.labels@),
        req@.project_id == opt_text(req.project_id),
        req@.team_id == opt_text(req.team_id),
{
}

/// A subject is seen whole, and so is a page of them.
pub proof fn law_subject_view(subject: Subject, page: SubjectList, i: int)
    ensures
        subject@.id == subject.id.raw@,
        subject@.kind == subject.kind@,
        subject@.title == subject.title@,
        subject@.description == opt_text(subject.description),
        subject@.status == subject.status,
        subject@.priority == subject.priority,
        subject@.assignee == opt_text(subject.assignee),
        subject@.labels == texts(subject.labels@),
        subject.parent is Some ==> subject@.parent == Some(subject.parent->0.raw@),
        subject.parent is None ==> subject@.parent is None,
        subject@.children == id_texts(subject.children@),
        subject@.url == opt_text(subject.url),
        subject@.created_at == subject.created_at@,
        subject@.updated_at == subject.updated_at@,
        subject@.custom == object_view(subject.custom.entries@),
        subject@.native_status == opt_text(subject.native_status),
        subject@.status_metadata == subject.status_metadata@,
        subject@.attachments == array_view(subject.attachments@),
        page@.next_cursor == opt_text(page.next_cursor),
        page@.subjects == subject_views(page.subjects@),
        subject_views(page.subjects@).len() == page.subjects@.len(),
        0 <= i < page.subjects@.len() ==> page@.subjects[i] == page.subjects@[i]@,
{
}

/// Verdicts, schemas and errors are seen whole.
pub proof fn law_answer_views(
    health: HealthCheckResult,
    schema: SubjectSchema,
    field: CustomFieldSpec,
    message: String,
    i: int,
)
    ensures
        health@.status == health.status,
        health@.uptime_ms == health.uptime_ms,
        health@.memory_usage_bytes == health.memory_usage_bytes,
        health@.last_error == opt_text(health.last_error),
        schema@.kinds == texts(schema.kinds@),
        schema@.status_values == schema.status_values@,
        schema@.supports_watch == schema.supports_watch,
        schema@.supports_create == schema.supports_create,
        schema@.supports_delete == schema.supports_delete,
        schema@.supports_pagination == schema.supports_pagination,
        schema@.native_status_values == texts(schema.native_status_values@),
        schema@.status_dispatch_hints == array_view(schema.status_dispatch_hints@),
        schema@.custom_fields.len() == schema.custom_fields@.len(),
        0 <= i < schema.custom_fields@.len() ==> schema@.custom_fields[i]
            == schema.custom_fields@[i]@,
        field@.key == field.key@,
        field@.kind == field.kind,
        field.values is Some ==> field@.values == Some(texts(field.values->0@)),
        field.values is None ==> field@.values is None,
        BackendError::NotFound(message)@ == BackendErrorView::NotFound(message@),
        BackendError::InvalidRequest(message)@ == BackendErrorView::InvalidRequest(message@),
        BackendError::PermissionDenied(message)@ == BackendErrorView::PermissionDenied(message@),
        BackendError::Unavailable(message)@ == BackendErrorView::Unavailable(message@),
        BackendError::Other(message)@ == BackendErrorView::Other(message@),
{
}

/// Requests, responses and workflow states are seen whole, but for what is
/// beside the message of an error.
pub proof fn law_exchange_views(
    request: GraphQlRequest,
    response: GraphQlResponse,
    error: ClientError,
    errors: Seq<GraphQlError>,
    value: Json,
    state: LinearWorkflowState,
    states: Seq<LinearWorkflowState>,
    i: int,
)
    ensures
        request@.query == request.query@,
        request@.variables == request.variables@,
        response@.status == response.status@,
        response@.data == opt_json(response.data),
        response@.errors == error_messages(response.errors@),
        response@.succeeded() <==> 200 <= response.status@ < 300,
        error_messages(errors).len() == errors.len(),
        0 <= i < errors.len() ==> error_messages(errors)[i] == errors[i].message@,
        opt_json(Some(value)) == Some(value@),
        opt_json(None) is None,
        opt_member(Some(&value)) == Some(value@),
        opt_member(None) is None,
        outcome_view(Ok(response)) == Ok::<ResponseView, ClientError>(response@),
        outcome_view(Err(error)) == Err::<ResponseView, ClientError>(error),
        state@.id == state.id@,
        state@.name == state.name@,
        state@.state_type == state.state_type@,
        state@.position == double_rank(state.position.bits),
        state_views(states).len() == states.len(),
        0 <= i < states.len() ==> state_views(states)[i] == states[i]@,
{
}

/// A configuration is seen whole.
pub proof fn law_configuration_view(config: LinearConfig)
    ensures
        config@.api_token == opt_text(config.api_token),
        config@.api_url == config.api_url@,
        config@.team_id == opt_text(config.team_id),
        config@.project_id == opt_text(config.project_id),
        config@.status_overrides == config.status_overrides@,
{
}

/// Calls, what they wait for, steps and replies are seen whole.
pub proof fn law_machine_views(
    call: Call,
    filter: SubjectFilter,
    id: SubjectId,
    patch: SubjectPatch,
    req: CreateRequest,
    comment: Option<String>,
    issue: Json,
    discovered: bool,
    request: GraphQlRequest,
    pending: Pending,
    page: SubjectList,
    subject: Subject,
    health: HealthCheckResult,
    reply: Reply,
    error: BackendError,
)
    ensures
        Call::List(filter)@ == CallView::List(filter@),
        Call::Get(id)@ == CallView::Get(id.raw@),
        Call::Update(id, patch)@ == CallView::Update(id.raw@, patch@),
        Call::Create(req)@ == CallView::Create(req@),
        Pending::States(call)@ == PendingView::States(call@),
        Pending::Page@ == PendingView::Page,
        Pending::Issue(id, comment)@ == PendingView::Issue(id.raw@, opt_text(comment)),
        Pending::Updated(id, comment)@ == PendingView::Updated(id.raw@, opt_text(comment)),
        Pending::Comment(id, issue)@ == PendingView::Comment(id.raw@, issue@),
        Pending::Created(discovered)@ == PendingView::Created(discovered),
        Pending::Health@ == PendingView::Health,
        Reply::Page(page)@ == ReplyView::Page(page@),
        Reply::Subject(subject)@ == ReplyView::Subject(subject@),
        Reply::Health(health)@ == ReplyView::Health(health@),
        Step::Send(request, pending)@ == StepView::Send(request@, pending@),
        Step::Decode(issue, call)@ == StepView::Decode(issue@, call@),
        Step::Done(Ok(reply))@ == StepView::Done(Ok(reply@)),
        Step::Done(Err(error))@ == StepView::Done(Err(error@)),
{
}

/// What the environment describes, variable by variable: each is taken as it is
/// where it is set and not empty, the endpoint also where it is empty, and none
/// has a say in the others.
pub proof fn law_environment(vars: EnvVars)
    ensures
        ({
            let config = env_config(vars);
            let set = |value: Option<String>| value is Some && value->0@.len() > 0;
            &&& config.api_token == (if set(vars.api_token) {
                Some(vars.api_token->0@)
            } else {
                None
            })
            &&& config.team_id == (if set(vars.team_id) {
                Some(vars.team_id->0@)
            } else {
                None
            })
            &&& config.project_id == (if set(vars.project_id) {
                Some(vars.project_id->0@)
            } else {
                None
            })
            &&& config.api_url == (if vars.api_url is Some {
                vars.api_url->0@
            } else {
                "https://api.linear.app/graphql"@
            })
            &&& config.status_overrides == (if set(vars.status_map) {
                document_overrides(text_json(vars.status_map->0@))
            } else {
                Map::empty()
            })
        }),
{
}

/// A backend starts with its configuration and without a workflow.
pub proof fn law_backend_starts_so(config: ConfigView)
    ensures
        backend_of(config).client == client_of(config),
        backend_of(config).overrides == config.status_overrides,
        backend_of(config).status_map is None,
{
}

/// A request goes out as its operation and its variables.
pub proof fn law_requests_go_out_so(request: RequestView)
    ensures
        envelope(request) == JsonView::Object(
            map![
                "query"@ => JsonView::Text(request.query),
                "variables"@ => request.variables,
            ],
        ),
{
}

/// A response has the status and the errors that came, and the body's data
/// unless that is missing or `null`.
pub proof fn law_responses_come_in_so(status: u16, body: JsonView, messages: Seq<Seq<char>>)
    ensures
        ({
            let response = response_of(status, body, messages);
            let data = member(body, "data"@);
            &&& response.status == status
            &&& response.errors == messages
            &&& data is Some && !(data->0 is Null) ==> response.data == data
            &&& data is None || data->0 is Null ==> response.data is None
        }),
{
}

/// A call that waited for the workflow goes on as if it were made now that the
/// workflow is known; where the states did not decode it fails.
pub proof fn law_waiting_calls_go_on(
    b: BackendView,
    call: CallView,
    states: Seq<WorkflowStateView>,
)
    ensures
        b.status_map is Some ==> after_learning(b, call, Some(states)) == begin(b, call),
        b.status_map is None ==> after_learning(b, call, Some(states)) == begin(
            BackendView { status_map: Some(workflow_map(states, b.overrides)), ..b },
            call,
        ),
        after_learning(b, call, None) == StepView::Done(
            Err(
                BackendErrorView::Unavailable(
                    "could not deserialize team.states.nodes as workflow states"@,
                ),
            ),
        ),
{
}

}
