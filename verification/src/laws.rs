//! What holds of the backend as a whole.

use vstd::prelude::*;

use crate::backend::{
    after_reply, begin, begin_health, comment_request, create_mutation_text, data_of, failed,
    get_query_text, get_request, health_of, known_map, list_query_text, node_subjects, page_size,
    schema_of, subject_step, unhealthy, update_mutation_text, update_request, with_states,
    BackendView, CallView, PendingView, ReplyView, StepView, CREATE_HEAD, GET_HEAD, GET_TAIL, ISSUE_FIELDS,
    LIST_HEAD, NODE_TAIL, UPDATE_HEAD,
};
use crate::client::{
    position_lt, request_headers, team_states_request, ClientError, RequestView, ResponseView, WorkflowStateView,
};
use crate::config::{document_overrides, status_word, value_status};
use crate::input::{
    assignee_clause, create_input, first_of, issue_filter, labels_clause, requested_priority,
    state_clause, unmapped_status, update_input, wanted_state_ids, CreateRequestView,
};
use crate::issue::{
    animus_priority, bucket_priority, connection_texts, graphql_error, issue_priority, issue_status,
    issue_subject, native_id_of, non_blank, subject_id_of, ID_PREFIX,
};
use crate::json::{
    is_true, member, member2, number_u64, object1, text_array, text_member, text_of, text_or_null,
    JsonView,
};
use crate::status_map::{
    named_status, state_status, states_by_id, target_index, type_status, workflow_map,
    StatusMapView,
};
use crate::string_map::{distinct_keys, lemma_lookup, lemma_upserted, pairs_map, position_of};
use crate::subject::{
    BackendErrorView, HealthStatus, SubjectFilterView, SubjectPatchView, SubjectStatus, SubjectView,
};
use crate::text::{occurs_at, occurs_in, trimmed};
use crate::timestamp::rfc3339_text;

verus! {

/// No later state has the id of this one.
pub open spec fn current(states: Seq<WorkflowStateView>, i: int) -> bool {
    &&& 0 <= i < states.len()
    &&& forall|j: int| i < j < states.len() ==> (#[trigger] states[j]).id != states[i].id
}

/// States with one id have one status.
pub open spec fn ids_agree(
    states: Seq<WorkflowStateView>,
    overrides: Map<Seq<char>, SubjectStatus>,
) -> bool {
    forall|i: int, j: int|
        0 <= i < j < states.len() && (#[trigger] states[i]).id == (#[trigger] states[j]).id
            ==> state_status(states[i], overrides) == state_status(states[j], overrides)
}

proof fn lemma_row(
    states: Seq<WorkflowStateView>,
    overrides: Map<Seq<char>, SubjectStatus>,
    i: int,
)
    requires
        current(states, i),
    ensures
        pairs_map(states_by_id(states, overrides)).contains_key(states[i].id),
        pairs_map(states_by_id(states, overrides))[states[i].id] == (
            states[i].name,
            state_status(states[i], overrides),
        ),
    decreases states.len(),
{
    let shorter = states.drop_last();
    let last = states.last();
    let known = states_by_id(shorter, overrides);
    lemma_upserted(known, last.id, (last.name, state_status(last, overrides)));
    if i < states.len() - 1 {
        assert(states[states.len() - 1].id != states[i].id);
        assert forall|j: int| i < j < shorter.len() implies (#[trigger] shorter[j]).id
            != shorter[i].id by {
            assert(shorter[j] == states[j]);
        }
        lemma_row(shorter, overrides, i);
    }
}

/// A state has the status that the overrides give its name, else the one of
/// its type. Where an id occurs more than once, its last state counts.
pub proof fn law_state_has_its_status(
    states: Seq<WorkflowStateView>,
    overrides: Map<Seq<char>, SubjectStatus>,
    i: int,
)
    requires
        current(states, i),
    ensures
        workflow_map(states, overrides).status_of(states[i].id) == Some(
            if overrides.contains_key(states[i].name) {
                overrides[states[i].name]
            } else {
                type_status(states[i].state_type)
            },
        ),
{
    lemma_row(states, overrides, i);
}

/// An id has a status exactly if a state of the workflow has the id.
pub proof fn law_unknown_ids_have_no_status(
    states: Seq<WorkflowStateView>,
    overrides: Map<Seq<char>, SubjectStatus>,
    id: Seq<char>,
)
    ensures
        workflow_map(states, overrides).status_of(id) is Some <==> exists|i: int|
            0 <= i < states.len() && (#[trigger] states[i]).id == id,
    decreases states.len(),
{
    if states.len() > 0 {
        let shorter = states.drop_last();
        let last = states.last();
        let known = states_by_id(shorter, overrides);
        lemma_upserted(known, last.id, (last.name, state_status(last, overrides)));
        law_unknown_ids_have_no_status(shorter, overrides, id);
        if workflow_map(shorter, overrides).status_of(id) is Some {
            let i = choose|i: int| 0 <= i < shorter.len() && (#[trigger] shorter[i]).id == id;
            assert(states[i].id == id);
        }
        if exists|i: int| 0 <= i < states.len() && (#[trigger] states[i]).id == id {
            let i = choose|i: int| 0 <= i < states.len() && (#[trigger] states[i]).id == id;
            if i < shorter.len() {
                assert(shorter[i].id == id);
            } else {
                assert(states[i] == last);
            }
        }
        assert(states[states.len() - 1] == last);
    }
}

/// The state that stands for a status, by its index: it has the status, no
/// state with the status has a lower position, and none before it has the same.
pub open spec fn stands_for(
    states: Seq<WorkflowStateView>,
    overrides: Map<Seq<char>, SubjectStatus>,
    status: SubjectStatus,
    i: int,
) -> bool {
    &&& 0 <= i < states.len()
    &&& state_status(states[i], overrides) == status
    &&& forall|j: int|
        0 <= j < states.len() && state_status(#[trigger] states[j], overrides) == status
            ==> !position_lt(states[j].position, states[i].position)
    &&& forall|j: int|
        0 <= j < i && state_status(#[trigger] states[j], overrides) == status ==> position_lt(
            states[i].position,
            states[j].position,
        )
}

/// No position is NaN.
pub open spec fn ordered_positions(states: Seq<WorkflowStateView>) -> bool {
    forall|i: int| 0 <= i < states.len() ==> (#[trigger] states[i]).position is Some
}

proof fn lemma_target_index(
    states: Seq<WorkflowStateView>,
    overrides: Map<Seq<char>, SubjectStatus>,
    status: SubjectStatus,
)
    requires
        ordered_positions(states),
    ensures
        match target_index(states, overrides, status) {
            Some(i) => stands_for(states, overrides, status, i),
            None => forall|j: int|
                0 <= j < states.len() ==> state_status(#[trigger] states[j], overrides) != status,
        },
    decreases states.len(),
{
    if states.len() > 0 {
        let shorter = states.drop_last();
        assert forall|i: int| 0 <= i < shorter.len() implies (#[trigger] shorter[i]).position is Some by {
            assert(states[i].position is Some);
        }
        lemma_target_index(shorter, overrides, status);
        assert forall|j: int| 0 <= j < shorter.len() implies shorter[j] == #[trigger] states[j] by {}
        assert(states.last() == states[states.len() - 1]);
        assert(states.last().position is Some);
        match target_index(shorter, overrides, status) {
            Some(i) => {
                assert(shorter[i] == states[i]);
                assert(states[i].position is Some);
                assert forall|j: int|
                    0 <= j < shorter.len() && state_status(#[trigger] states[j], overrides)
                        == status implies !position_lt(states[j].position, states[i].position) by {
                    assert(shorter[j] == states[j]);
                    assert(states[j].position is Some);
                }
                assert forall|j: int|
                    0 <= j < i && state_status(#[trigger] states[j], overrides)
                        == status implies position_lt(states[i].position, states[j].position) by {
                    assert(shorter[j] == states[j]);
                }
            },
            None => {
                assert forall|j: int| 0 <= j < shorter.len() implies state_status(
                    #[trigger] states[j],
                    overrides,
                ) != status by {
                    assert(shorter[j] == states[j]);
                }
            },
        }
    }
}

/// A status is written as the state with the lowest position among those that
/// have it, the first of them where positions are equal.
pub proof fn law_lowest_position_stands_for_status(
    states: Seq<WorkflowStateView>,
    overrides: Map<Seq<char>, SubjectStatus>,
    status: SubjectStatus,
    i: int,
)
    requires
        ordered_positions(states),
        stands_for(states, overrides, status, i),
    ensures
        workflow_map(states, overrides).target(status) == Some(states[i].id),
{
    lemma_target_index(states, overrides, status);
    let k = target_index(states, overrides, status)->0;
    assert(state_status(states[i], overrides) == status);
    assert(state_status(states[k], overrides) == status);
    assert(k == i);
}

proof fn lemma_target_has_status(
    states: Seq<WorkflowStateView>,
    overrides: Map<Seq<char>, SubjectStatus>,
    status: SubjectStatus,
)
    ensures
        match target_index(states, overrides, status) {
            Some(i) => 0 <= i < states.len() && state_status(states[i], overrides) == status,
            None => forall|j: int|
                0 <= j < states.len() ==> state_status(#[trigger] states[j], overrides) != status,
        },
    decreases states.len(),
{
    if states.len() > 0 {
        let shorter = states.drop_last();
        lemma_target_has_status(shorter, overrides, status);
        assert forall|j: int| 0 <= j < shorter.len() implies shorter[j] == #[trigger] states[j] by {}
        if target_index(shorter, overrides, status) is None {
            assert forall|j: int| 0 <= j < shorter.len() implies state_status(
                #[trigger] states[j],
                overrides,
            ) != status by {
                assert(shorter[j] == states[j]);
            }
        }
    }
}

/// A status can be written exactly if some state of the workflow has it.
pub proof fn law_writable_statuses(
    states: Seq<WorkflowStateView>,
    overrides: Map<Seq<char>, SubjectStatus>,
    status: SubjectStatus,
)
    ensures
        workflow_map(states, overrides).target(status) is Some <==> exists|i: int|
            0 <= i < states.len() && state_status(#[trigger] states[i], overrides) == status,
{
    lemma_target_has_status(states, overrides, status);
    if let Some(i) = target_index(states, overrides, status) {
        assert(state_status(states[i], overrides) == status);
    }
}

proof fn lemma_last_with_id(states: Seq<WorkflowStateView>, i: int) -> (k: int)
    requires
        0 <= i < states.len(),
    ensures
        i <= k,
        current(states, k),
        states[k].id == states[i].id,
    decreases states.len() - i,
{
    if exists|j: int| i < j < states.len() && (#[trigger] states[j]).id == states[i].id {
        let j = choose|j: int| i < j < states.len() && (#[trigger] states[j]).id == states[i].id;
        lemma_last_with_id(states, j)
    } else {
        i
    }
}

/// One more state in a workflow stands for its own status only, and for that if
/// none did before or if its position is lower; else what stood for a status
/// still does.
pub proof fn law_one_more_state(
    states: Seq<WorkflowStateView>,
    state: WorkflowStateView,
    overrides: Map<Seq<char>, SubjectStatus>,
    status: SubjectStatus,
)
    ensures
        ({
            let before = target_index(states, overrides, status);
            let after = target_index(states.push(state), overrides, status);
            let same = state_status(state, overrides) == status;
            let wins = same && (before is None || position_lt(
                state.position,
                states[before->0].position,
            ));
            &&& wins ==> after == Some(states.len() as int)
            &&& !wins ==> after == before
            &&& before is Some ==> 0 <= before->0 < states.len()
            &&& workflow_map(states, overrides).target(status) == (if before is Some {
                Some(states[before->0].id)
            } else {
                None
            })
        }),
{
    let more = states.push(state);
    assert(more.drop_last() =~= states);
    lemma_target_has_status(states, overrides, status);
    if let Some(i) = target_index(states, overrides, status) {
        assert(more[i] == states[i]);
    }
}

/// Behind a status that can be written stands a state: one that has the status,
/// with the lowest position, the first of them where positions are equal.
pub proof fn law_writable_status_has_its_state(
    states: Seq<WorkflowStateView>,
    overrides: Map<Seq<char>, SubjectStatus>,
    status: SubjectStatus,
)
    requires
        ordered_positions(states),
        workflow_map(states, overrides).target(status) is Some,
    ensures
        exists|i: int|
            #[trigger] stands_for(states, overrides, status, i) && workflow_map(
                states,
                overrides,
            ).target(status) == Some(states[i].id),
{
    lemma_target_index(states, overrides, status);
    let i = target_index(states, overrides, status)->0;
    assert(stands_for(states, overrides, status, i));
}

/// What is written is read back: an issue in the state that stands for a
/// status has that status.
pub proof fn law_written_status_is_read_back(
    states: Seq<WorkflowStateView>,
    overrides: Map<Seq<char>, SubjectStatus>,
    status: SubjectStatus,
    issue: JsonView,
)
    requires
        ids_agree(states, overrides),
        workflow_map(states, overrides).target(status) is Some,
        text_of(member2(issue, "state"@, "id"@)) == workflow_map(states, overrides).target(status),
    ensures
        issue_status(issue, workflow_map(states, overrides)) == status,
{
    lemma_target_has_status(states, overrides, status);
    let i = target_index(states, overrides, status)->0;
    let k = lemma_last_with_id(states, i);
    assert(states[i].id == states[k].id);
    law_state_has_its_status(states, overrides, k);
}

proof fn lemma_row_source(
    states: Seq<WorkflowStateView>,
    overrides: Map<Seq<char>, SubjectStatus>,
    k: int,
) -> (i: int)
    requires
        0 <= k < states_by_id(states, overrides).len(),
    ensures
        distinct_keys(states_by_id(states, overrides)),
        current(states, i),
        states_by_id(states, overrides)[k] == (
            states[i].id,
            (states[i].name, state_status(states[i], overrides)),
        ),
    decreases states.len(),
{
    let shorter = states.drop_last();
    let last = states.last();
    let known = states_by_id(shorter, overrides);
    let value = (last.name, state_status(last, overrides));
    if known.len() > 0 {
        lemma_row_source(shorter, overrides, 0);
    }
    lemma_upserted(known, last.id, value);
    lemma_lookup(known, last.id);
    let at = match position_of(known, last.id) {
        Some(p) => p,
        None => known.len() as int,
    };
    if k == at {
        states.len() - 1
    } else {
        let i = lemma_row_source(shorter, overrides, k);
        assert(known[k].0 != last.id) by {
            if known[k].0 == last.id {
                assert(known[at].0 == last.id);
            }
        }
        assert forall|j: int| i < j < states.len() implies (#[trigger] states[j]).id
            != states[i].id by {
            if j < shorter.len() {
                assert(shorter[j] == states[j]);
            }
        }
        i
    }
}

proof fn lemma_named_status(rows: Seq<(Seq<char>, (Seq<char>, SubjectStatus))>, name: Seq<char>)
    ensures
        match named_status(rows, name) {
            Some(status) => exists|k: int|
                0 <= k < rows.len() && (#[trigger] rows[k]).1 == (name, status),
            None => forall|k: int| 0 <= k < rows.len() ==> (#[trigger] rows[k]).1.0 != name,
        },
    decreases rows.len(),
{
    if rows.len() > 0 {
        let shorter = rows.drop_last();
        lemma_named_status(shorter, name);
        match named_status(shorter, name) {
            Some(status) => {
                let k = choose|k: int|
                    0 <= k < shorter.len() && (#[trigger] shorter[k]).1 == (name, status);
                assert(rows[k].1 == (name, status));
            },
            None => {
                assert forall|k: int| 0 <= k < shorter.len() implies (#[trigger] rows[k]).1.0
                    != name by {
                    assert(shorter[k] == rows[k]);
                }
                assert(rows[rows.len() - 1] == rows.last());
            },
        }
    }
}

/// A name has the status of a state of that name, and none where no state has
/// the name. Of states with one id the last counts.
pub proof fn law_names_have_statuses(
    states: Seq<WorkflowStateView>,
    overrides: Map<Seq<char>, SubjectStatus>,
    name: Seq<char>,
)
    ensures
        match workflow_map(states, overrides).status_named(name) {
            Some(status) => exists|i: int|
                #![trigger states[i]]
                current(states, i) && states[i].name == name && state_status(states[i], overrides)
                    == status,
            None => forall|i: int|
                #![trigger states[i]]
                current(states, i) ==> states[i].name != name,
        },
{
    let rows = states_by_id(states, overrides);
    lemma_named_status(rows, name);
    match named_status(rows, name) {
        Some(status) => {
            let k = choose|k: int| 0 <= k < rows.len() && (#[trigger] rows[k]).1 == (name, status);
            let i = lemma_row_source(states, overrides, k);
            assert(states[i].name == name);
        },
        None => {
            assert forall|i: int| #![trigger states[i]] current(states, i) implies states[i].name
                != name by {
                lemma_row(states, overrides, i);
                lemma_lookup(rows, states[i].id);
                let k = position_of(rows, states[i].id)->0;
                assert(rows[k].1.0 == states[i].name);
            }
        },
    }
}

/// An identifier gets through a subject id unchanged.
pub proof fn law_identifiers_round_trip(identifier: Seq<char>)
    ensures
        native_id_of(subject_id_of(identifier)) == Ok::<Seq<char>, BackendErrorView>(identifier),
{
    assert(ID_PREFIX@.is_prefix_of(subject_id_of(identifier)));
    assert(subject_id_of(identifier).skip(ID_PREFIX@.len() as int) =~= identifier);
}

/// A subject id gets through an identifier unchanged.
pub proof fn law_subject_ids_round_trip(id: Seq<char>)
    ensures
        native_id_of(id) matches Ok(identifier) ==> subject_id_of(identifier) == id,
{
    if ID_PREFIX@.is_prefix_of(id) {
        assert(subject_id_of(id.skip(ID_PREFIX@.len() as int)) =~= id);
    }
}

/// The subject of an issue is found again under its id, and its parent and
/// children under theirs.
pub proof fn law_subjects_are_addressable(issue: JsonView, map: StatusMapView)
    ensures
        issue_subject(issue, map) matches Ok(subject) ==> {
            &&& native_id_of(subject.id) == Ok::<Seq<char>, BackendErrorView>(
                text_member(issue, "identifier"@)->0,
            )
            &&& subject.parent matches Some(parent) ==> native_id_of(parent) == Ok::<
                Seq<char>,
                BackendErrorView,
            >(text_of(member2(issue, "parent"@, "identifier"@))->0)
            &&& subject.children.len() == connection_texts(
                issue,
                "children"@,
                "identifier"@,
            ).len()
            &&& forall|i: int|
                0 <= i < subject.children.len() ==> native_id_of(#[trigger] subject.children[i])
                    == Ok::<Seq<char>, BackendErrorView>(
                    connection_texts(issue, "children"@, "identifier"@)[i],
                )
        },
{
    if let Ok(subject) = issue_subject(issue, map) {
        law_identifiers_round_trip(text_member(issue, "identifier"@)->0);
        if subject.parent is Some {
            law_identifiers_round_trip(text_of(member2(issue, "parent"@, "identifier"@))->0);
        }
        let children = connection_texts(issue, "children"@, "identifier"@);
        assert forall|i: int| 0 <= i < subject.children.len() implies native_id_of(
            #[trigger] subject.children[i],
        ) == Ok::<Seq<char>, BackendErrorView>(children[i]) by {
            law_identifiers_round_trip(children[i]);
        }
    }
}

/// The more urgent a Linear priority, the higher the subject's: Linear's 1 to 4
/// are a subject's 4 to 1. No priority is no priority, and other numbers are
/// none at all.
pub proof fn law_priorities_are_reversed(a: u64, b: u64)
    ensures
        1 <= a < b <= 4 ==> animus_priority(a)->0 > animus_priority(b)->0,
        1 <= a <= 4 ==> animus_priority(a) is Some && 1 <= animus_priority(a)->0 <= 4,
        animus_priority(0) == Some(0u8),
        a > 4 ==> animus_priority(a) is None,
{
}

/// The priority that an issue is created with is the one that it is read with:
/// `p0` as 4, `p1` as 3, `p2` as 2 and `p3` as 1.
pub proof fn law_created_priority_is_read_back(
    bucket: Seq<char>,
    issue: JsonView,
    n: serde_json::Number,
)
    requires
        bucket_priority(bucket) is Some,
        member(issue, "priority"@) == Some(JsonView::Number(n)),
        number_u64(n) == Some(bucket_priority(bucket)->0 as u64),
    ensures
        bucket == "p0"@ || bucket == "P0"@ ==> issue_priority(issue) == Some(4u8),
        bucket == "p1"@ || bucket == "P1"@ ==> issue_priority(issue) == Some(3u8),
        bucket == "p2"@ || bucket == "P2"@ ==> issue_priority(issue) == Some(2u8),
        bucket == "p3"@ || bucket == "P3"@ ==> issue_priority(issue) == Some(1u8),
{
    reveal_strlit("p0");
    reveal_strlit("P0");
    reveal_strlit("p1");
    reveal_strlit("P1");
    reveal_strlit("p2");
    reveal_strlit("P2");
    reveal_strlit("p3");
    reveal_strlit("P3");
    assert("p0"@[1] == '0' && "P0"@[1] == '0');
    assert("p1"@[1] == '1' && "P1"@[1] == '1');
    assert("p2"@[1] == '2' && "P2"@[1] == '2');
    assert("p3"@[1] == '3' && "P3"@[1] == '3');
}

proof fn lemma_wanted_state_ids(
    rows: Seq<(Seq<char>, (Seq<char>, SubjectStatus))>,
    wanted: Seq<SubjectStatus>,
    id: Seq<char>,
)
    ensures
        wanted_state_ids(rows, wanted).contains(id) <==> exists|k: int|
            0 <= k < rows.len() && (#[trigger] rows[k]).0 == id && wanted.contains(rows[k].1.1),
    decreases rows.len(),
{
    if rows.len() > 0 {
        let shorter = rows.drop_last();
        let before = wanted_state_ids(shorter, wanted);
        lemma_wanted_state_ids(shorter, wanted, id);
        if before.contains(id) {
            let k = choose|k: int|
                0 <= k < shorter.len() && (#[trigger] shorter[k]).0 == id && wanted.contains(
                    shorter[k].1.1,
                );
            assert(rows[k].0 == id);
            let at = choose|at: int| 0 <= at < before.len() && before[at] == id;
            assert(wanted_state_ids(rows, wanted)[at] == id);
        }
        if wanted.contains(rows.last().1.1) {
            let ids = before.push(rows.last().0);
            assert(ids[ids.len() - 1] == rows.last().0);
            assert(rows[rows.len() - 1] == rows.last());
            if ids.contains(id) && id != rows.last().0 {
                let at = choose|at: int| 0 <= at < ids.len() && ids[at] == id;
                assert(before[at] == id);
            }
        }
        if exists|k: int|
            0 <= k < rows.len() && (#[trigger] rows[k]).0 == id && wanted.contains(rows[k].1.1) {
            let k = choose|k: int|
                0 <= k < rows.len() && (#[trigger] rows[k]).0 == id && wanted.contains(
                    rows[k].1.1,
                );
            if k < shorter.len() {
                assert(shorter[k] == rows[k]);
            }
        }
    }
}

proof fn lemma_wanted_state_ids_distinct(
    rows: Seq<(Seq<char>, (Seq<char>, SubjectStatus))>,
    wanted: Seq<SubjectStatus>,
)
    requires
        distinct_keys(rows),
    ensures
        wanted_state_ids(rows, wanted).no_duplicates(),
    decreases rows.len(),
{
    if rows.len() > 0 {
        let shorter = rows.drop_last();
        assert forall|j: int, k: int| 0 <= j < k < shorter.len() implies (#[trigger] shorter[j]).0
            != (#[trigger] shorter[k]).0 by {
            assert(rows[j].0 != rows[k].0);
        }
        lemma_wanted_state_ids_distinct(shorter, wanted);
        lemma_wanted_state_ids(shorter, wanted, rows.last().0);
        if wanted_state_ids(shorter, wanted).contains(rows.last().0) {
            let k = choose|k: int|
                0 <= k < shorter.len() && (#[trigger] shorter[k]).0 == rows.last().0;
            assert(rows[k].0 != rows[rows.len() - 1].0);
        }
    }
}

/// A filter by status names exactly the states that have one of the statuses,
/// each once.
pub proof fn law_filter_names_the_wanted_states(
    states: Seq<WorkflowStateView>,
    overrides: Map<Seq<char>, SubjectStatus>,
    wanted: Seq<SubjectStatus>,
    id: Seq<char>,
)
    ensures
        wanted_state_ids(workflow_map(states, overrides).states, wanted).contains(id) <==> {
            &&& workflow_map(states, overrides).status_of(id) is Some
            &&& wanted.contains(workflow_map(states, overrides).status_of(id)->0)
        },
        wanted_state_ids(workflow_map(states, overrides).states, wanted).no_duplicates(),
{
    let rows = states_by_id(states, overrides);
    lemma_wanted_state_ids(rows, wanted, id);
    lemma_lookup(rows, id);
    if rows.len() > 0 {
        lemma_row_source(states, overrides, 0);
    }
    lemma_wanted_state_ids_distinct(rows, wanted);
    if let Some(at) = position_of(rows, id) {
        assert(rows[at].0 == id);
        assert forall|k: int| 0 <= k < rows.len() && (#[trigger] rows[k]).0 == id implies k == at by {
            if k < at {
                assert(rows[k].0 != rows[at].0);
            } else if at < k {
                assert(rows[at].0 != rows[k].0);
            }
        }
    }
}

/// Each criterion stands in the filter under its own key, whatever the others
/// are.
pub proof fn law_filter_criteria_are_independent(
    team_id: Option<Seq<char>>,
    filter: SubjectFilterView,
    map: StatusMapView,
)
    ensures
        member(issue_filter(team_id, filter, map), "team"@) == (match team_id {
            Some(id) => Some(object1("id"@, object1("eq"@, JsonView::Text(id)))),
            None => None,
        }),
        member(issue_filter(team_id, filter, map), "state"@) == state_clause(filter, map),
        member(issue_filter(team_id, filter, map), "assignee"@) == assignee_clause(
            filter.assignee,
        ),
        member(issue_filter(team_id, filter, map), "labels"@) == labels_clause(
            filter.labels_any,
            filter.labels_all,
        ),
        member(issue_filter(team_id, filter, map), "updatedAt"@) == (match filter.updated_since {
            Some(t) => Some(object1("gte"@, JsonView::Text(rfc3339_text(t.0, t.1)))),
            None => None,
        }),
{
    reveal_strlit("team");
    reveal_strlit("state");
    reveal_strlit("assignee");
    reveal_strlit("labels");
    reveal_strlit("updatedAt");
    assert("team"@.len() == 4 && "state"@.len() == 5 && "assignee"@.len() == 8);
    assert("labels"@.len() == 6 && "updatedAt"@.len() == 9);
}

/// What a change sends: the state that stands for the status, by its id; the
/// assignee, `null` to clear it; the labels to add and to take away; and the
/// patch's own fields as they are, in place of assignee and labels where they
/// name these. A comment changes nothing of it, and the description, the
/// state's name and the whole set of labels are left alone unless the patch's
/// own fields name them.
pub proof fn law_update_input(
    patch: SubjectPatchView,
    map: StatusMapView,
    input: Map<Seq<char>, JsonView>,
    comment: Option<Seq<char>>,
    key: Seq<char>,
)
    requires
        update_input(patch, map) == Ok::<Map<Seq<char>, JsonView>, BackendErrorView>(input),
    ensures
        update_input(SubjectPatchView { comment, ..patch }, map) == update_input(patch, map),
        patch.status matches Some(status) ==> map.target(status) is Some && input.contains_key(
            "stateId"@,
        ) && input["stateId"@] == JsonView::Text(map.target(status)->0),
        patch.assignee is Some && !patch.custom.contains_key("assigneeId"@) ==> input.contains_key(
            "assigneeId"@,
        ) && input["assigneeId"@] == text_or_null(patch.assignee->0),
        patch.labels_add.len() > 0 && !patch.custom.contains_key("addedLabelIds"@)
            ==> input.contains_key("addedLabelIds"@) && input["addedLabelIds"@] == text_array(
            patch.labels_add,
        ),
        patch.labels_remove.len() > 0 && !patch.custom.contains_key("removedLabelIds"@)
            ==> input.contains_key("removedLabelIds"@) && input["removedLabelIds"@] == text_array(
            patch.labels_remove,
        ),
        patch.custom.contains_key(key) && (patch.status is None || key != "stateId"@)
            ==> input.contains_key(key) && input[key] == patch.custom[key],
        input.contains_key(key) ==> {
            ||| patch.custom.contains_key(key)
            ||| key == "stateId"@ && patch.status is Some
            ||| key == "assigneeId"@ && patch.assignee is Some
            ||| key == "addedLabelIds"@ && patch.labels_add.len() > 0
            ||| key == "removedLabelIds"@ && patch.labels_remove.len() > 0
        },
        !patch.custom.contains_key("description"@) ==> !input.contains_key("description"@),
        !patch.custom.contains_key("stateName"@) ==> !input.contains_key("stateName"@),
        !patch.custom.contains_key("labelIds"@) ==> !input.contains_key("labelIds"@),
{
    reveal_strlit("stateId");
    reveal_strlit("assigneeId");
    reveal_strlit("addedLabelIds");
    reveal_strlit("removedLabelIds");
    reveal_strlit("description");
    reveal_strlit("stateName");
    reveal_strlit("labelIds");
    assert("stateId"@.len() == 7 && "assigneeId"@.len() == 10);
    assert("addedLabelIds"@.len() == 13 && "removedLabelIds"@.len() == 15);
    assert("description"@.len() == 11 && "stateName"@.len() == 9 && "labelIds"@.len() == 8);
}

/// What a creation sends: team and title always, the title without white space
/// around it; the rest where it is asked for or configured; the state by its
/// id; and labels never.
pub proof fn law_create_input(
    req: CreateRequestView,
    team: Seq<char>,
    project: Option<Seq<char>>,
    map: StatusMapView,
    input: Map<Seq<char>, JsonView>,
    labels: Seq<Seq<char>>,
    key: Seq<char>,
)
    requires
        create_input(req, team, project, map) == Ok::<
            Map<Seq<char>, JsonView>,
            BackendErrorView,
        >(input),
    ensures
        create_input(CreateRequestView { labels, ..req }, team, project, map) == create_input(
            req,
            team,
            project,
            map,
        ),
        input.contains_key("teamId"@) && input["teamId"@] == JsonView::Text(team),
        input.contains_key("title"@) && input["title"@] == JsonView::Text(trimmed(req.title)),
        non_blank(req.body) matches Some(body) ==> input.contains_key("description"@)
            && input["description"@] == JsonView::Text(body),
        first_of(req.project_id, project) matches Some(id) ==> input.contains_key("projectId"@)
            && input["projectId"@] == JsonView::Text(id),
        requested_priority(req.priority) matches Some(p) ==> input.contains_key("priority"@)
            && input["priority"@] == p,
        req.status matches Some(word) ==> status_word(word) is Some && map.target(
            status_word(word)->0,
        ) is Some && input.contains_key("stateId"@) && input["stateId"@] == JsonView::Text(
            map.target(status_word(word)->0)->0,
        ),
        input.contains_key(key) ==> {
            ||| key == "teamId"@
            ||| key == "title"@
            ||| key == "description"@ && non_blank(req.body) is Some
            ||| key == "projectId"@ && first_of(req.project_id, project) is Some
            ||| key == "priority"@ && requested_priority(req.priority) is Some
            ||| key == "stateId"@ && req.status is Some
        },
{
    reveal_strlit("teamId");
    reveal_strlit("title");
    reveal_strlit("description");
    reveal_strlit("projectId");
    reveal_strlit("priority");
    reveal_strlit("stateId");
    assert("teamId"@.len() == 6 && "title"@.len() == 5 && "description"@.len() == 11);
    assert("projectId"@.len() == 9 && "priority"@.len() == 8 && "stateId"@.len() == 7);
}

/// Whether a call sends, or is waiting for, the query for the team's workflow.
pub open spec fn asks_for_workflow(step: StepView) -> bool {
    match step {
        StepView::Send(_, PendingView::States(_)) => true,
        StepView::Decode(_, _) => true,
        _ => false,
    }
}

/// Once the team's workflow is known it stays, and no call asks for it again.
pub proof fn law_workflow_is_kept(
    b: BackendView,
    call: CallView,
    states: Option<Seq<WorkflowStateView>>,
)
    requires
        b.status_map is Some,
    ensures
        !asks_for_workflow(begin(b, call)),
        with_states(b, states) == b,
{
}

/// Once its states were handed over the team's workflow is known, and the call
/// that waited for it goes on.
pub proof fn law_workflow_is_learnt(
    b: BackendView,
    call: CallView,
    states: Seq<WorkflowStateView>,
)
    requires
        b.status_map is None,
    ensures
        with_states(b, Some(states)).status_map == Some(workflow_map(states, b.overrides)),
        with_states(b, Some(states)).client == b.client,
        !asks_for_workflow(begin(with_states(b, Some(states)), call)),
{
}

/// No call but `create` without a status does without the workflow: the first
/// request of the others is the query for it, where it is not known.
pub proof fn law_workflow_is_asked_for_first(b: BackendView, call: CallView, team: Seq<char>)
    requires
        b.status_map is None,
        b.client.has_token(),
        b.client.team_id == Some(team),
        begin(b, call) is Send,
        call matches CallView::Create(req) ==> req.status is Some,
    ensures
        begin(b, call) == StepView::Send(team_states_request(team), PendingView::States(call)),
{
}

/// A creation without a status never asks for the workflow.
pub proof fn law_creation_without_status_needs_no_workflow(b: BackendView, req: CreateRequestView)
    requires
        req.status is None,
    ensures
        !asks_for_workflow(begin(b, CallView::Create(req))),
{
}

/// Without a token nothing is sent. A health check says so, and a call fails,
/// with the same error for every call on an id of Linear's or on none.
pub proof fn law_nothing_is_sent_without_a_token(b: BackendView, call: CallView)
    requires
        !b.client.has_token(),
    ensures
        begin(b, call) is Done,
        begin(b, call)->Done_0 is Err,
        begin_health(b) == StepView::Done(
            Ok::<ReplyView, BackendErrorView>(
                ReplyView::Health(unhealthy("LINEAR_API_TOKEN unset"@)),
            ),
        ),
        (match call {
            CallView::Get(id) => native_id_of(id) is Ok,
            CallView::Update(id, _) => native_id_of(id) is Ok,
            _ => true,
        }) ==> begin(b, call) == failed(BackendErrorView::Other("LINEAR_API_TOKEN required"@)),
{
}

/// An id that is not Linear's is rejected before anything is sent.
pub proof fn law_foreign_ids_are_rejected(b: BackendView, id: Seq<char>, patch: SubjectPatchView)
    requires
        !ID_PREFIX@.is_prefix_of(id),
    ensures
        begin(b, CallView::Get(id)) == failed(native_id_of(id)->Err_0),
        begin(b, CallView::Update(id, patch)) == failed(native_id_of(id)->Err_0),
        native_id_of(id)->Err_0 is InvalidRequest,
{
}

/// A backend that has what its calls need: a token, a team and the team's
/// workflow.
pub open spec fn ready(b: BackendView) -> bool {
    b.client.has_token() && b.client.team_id is Some && b.status_map is Some
}

/// A status that no state of the workflow has is rejected before anything is
/// sent.
pub proof fn law_unmapped_status_is_rejected(
    b: BackendView,
    identifier: Seq<char>,
    patch: SubjectPatchView,
    status: SubjectStatus,
)
    requires
        ready(b),
        patch.status == Some(status),
        b.status_map->0.target(status) is None,
    ensures
        begin(b, CallView::Update(subject_id_of(identifier), patch)) == failed(
            unmapped_status(status),
        ),
{
    law_identifiers_round_trip(identifier);
}

/// Whether a patch changes a field of the issue.
pub open spec fn changes_fields(patch: SubjectPatchView) -> bool {
    ||| patch.status is Some
    ||| patch.assignee is Some
    ||| patch.labels_add.len() > 0
    ||| patch.labels_remove.len() > 0
    ||| patch.custom != Map::<Seq<char>, JsonView>::empty()
}

/// A patch that changes no field, a comment at most, only fetches the issue;
/// any other goes out as an `issueUpdate`.
pub proof fn law_only_changes_are_sent(
    b: BackendView,
    identifier: Seq<char>,
    patch: SubjectPatchView,
)
    requires
        ready(b),
        update_input(patch, b.status_map->0) is Ok,
    ensures
        begin(b, CallView::Update(subject_id_of(identifier), patch)) == (if changes_fields(patch) {
            StepView::Send(
                update_request(identifier, update_input(patch, b.status_map->0)->Ok_0),
                PendingView::Updated(subject_id_of(identifier), patch.comment),
            )
        } else {
            StepView::Send(
                get_request(identifier),
                PendingView::Issue(subject_id_of(identifier), patch.comment),
            )
        }),
{
    law_identifiers_round_trip(identifier);
    let nothing = Map::<Seq<char>, JsonView>::empty();
    let input = update_input(patch, b.status_map->0)->Ok_0;
    if changes_fields(patch) {
        if patch.custom != nothing {
            assert(exists|key: Seq<char>| patch.custom.contains_key(key)) by {
                if forall|key: Seq<char>| !patch.custom.contains_key(key) {
                    assert(patch.custom =~= nothing);
                }
            }
            let key = choose|key: Seq<char>| patch.custom.contains_key(key);
            assert(input.contains_key(key));
        }
        assert(exists|key: Seq<char>| input.contains_key(key)) by {
            if patch.status is Some {
                assert(input.contains_key("stateId"@));
            }
            if patch.assignee is Some {
                assert(input.contains_key("assigneeId"@));
            }
            if patch.labels_add.len() > 0 {
                assert(input.contains_key("addedLabelIds"@));
            }
            if patch.labels_remove.len() > 0 {
                assert(input.contains_key("removedLabelIds"@));
            }
        }
        assert(input != nothing);
    } else {
        assert(input =~= nothing);
    }
}

/// Without a comment, or with an empty one, no request follows the issue.
pub proof fn law_empty_comments_are_not_posted(
    b: BackendView,
    id: Seq<char>,
    comment: Option<Seq<char>>,
    outcome: Result<ResponseView, ClientError>,
)
    requires
        comment is None || comment->0.len() == 0,
    ensures
        after_reply(b, PendingView::Issue(id, comment), outcome) is Done,
        after_reply(b, PendingView::Updated(id, comment), outcome) is Done,
{
}

/// The only request that can follow an issue is the comment, as a
/// `commentCreate` on the UUID of the issue that came back.
pub proof fn law_comments_go_to_the_issue(
    b: BackendView,
    pending: PendingView,
    outcome: Result<ResponseView, ClientError>,
    id: Seq<char>,
    comment: Option<Seq<char>>,
)
    requires
        pending == PendingView::Issue(id, comment) || pending == PendingView::Updated(id, comment),
    ensures
        match after_reply(b, pending, outcome) {
            StepView::Send(request, next) => {
                let issue = if pending is Issue {
                    member(data_of(outcome)->Ok_0, "issue"@)
                } else {
                    member2(data_of(outcome)->Ok_0, "issueUpdate"@, "issue"@)
                };
                &&& data_of(outcome) is Ok
                &&& issue is Some
                &&& text_member(issue->0, "id"@) is Some
                &&& comment is Some
                &&& request == comment_request(text_member(issue->0, "id"@)->0, comment->0)
                &&& next == PendingView::Comment(id, issue->0)
            },
            StepView::Decode(_, _) => false,
            StepView::Done(_) => true,
        },
{
}

/// A posted comment does not change what the call brings: the subject of the
/// issue as it came back before.
pub proof fn law_comment_leaves_the_subject(
    b: BackendView,
    id: Seq<char>,
    issue: JsonView,
    outcome: Result<ResponseView, ClientError>,
)
    requires
        data_of(outcome) is Ok,
        is_true(member2(data_of(outcome)->Ok_0, "commentCreate"@, "success"@)),
    ensures
        after_reply(b, PendingView::Comment(id, issue), outcome) == subject_step(
            issue,
            known_map(b),
        ),
{
}

/// How many requests may still be sent, at most, this step's own among them.
pub open spec fn requests_left(step: StepView) -> nat {
    match step {
        StepView::Send(_, pending) => match pending {
            PendingView::States(_) => 3,
            PendingView::Issue(_, _) => 2,
            PendingView::Updated(_, _) => 2,
            _ => 1,
        },
        StepView::Decode(_, _) => 2,
        StepView::Done(_) => 0,
    }
}

/// Every call ends, after three requests at most: each answer leaves fewer
/// requests than there were, and so does the workflow once it is there.
pub proof fn law_calls_end(
    b: BackendView,
    call: CallView,
    request: RequestView,
    pending: PendingView,
    outcome: Result<ResponseView, ClientError>,
    nodes: JsonView,
    states: Seq<WorkflowStateView>,
)
    ensures
        requests_left(begin(b, call)) <= 3,
        requests_left(begin_health(b)) <= 1,
        requests_left(after_reply(b, pending, outcome)) < requests_left(
            StepView::Send(request, pending),
        ),
        requests_left(begin(with_states(b, Some(states)), call)) <= requests_left(
            StepView::Decode(nodes, call),
        ),
{
}

/// A status that is written is reported: the change sends the id of the state
/// that stands for the status, and where Linear answers with the issue in that
/// state, the subject has the status.
pub proof fn law_status_change_is_reported(
    b: BackendView,
    states: Seq<WorkflowStateView>,
    identifier: Seq<char>,
    patch: SubjectPatchView,
    status: SubjectStatus,
    issue: JsonView,
)
    requires
        b.client.has_token(),
        b.client.team_id is Some,
        b.status_map == Some(workflow_map(states, b.overrides)),
        ids_agree(states, b.overrides),
        patch.status == Some(status),
        b.status_map->0.target(status) is Some,
        text_of(member2(issue, "state"@, "id"@)) == b.status_map->0.target(status),
    ensures
        ({
            let id = subject_id_of(identifier);
            let input = update_input(patch, b.status_map->0)->Ok_0;
            &&& begin(b, CallView::Update(id, patch)) == StepView::Send(
                update_request(identifier, input),
                PendingView::Updated(id, patch.comment),
            )
            &&& input.contains_key("stateId"@)
            &&& input["stateId"@] == JsonView::Text(b.status_map->0.target(status)->0)
        }),
        issue_subject(issue, b.status_map->0) matches Ok(subject) ==> subject.status == status,
{
    let map = b.status_map->0;
    let input = update_input(patch, map)->Ok_0;
    assert(update_input(patch, map) is Ok);
    law_only_changes_are_sent(b, identifier, patch);
    law_update_input(patch, map, input, patch.comment, "stateId"@);
    law_written_status_is_read_back(states, b.overrides, status, issue);
}

/// A subject that was listed can be fetched: its id leads to the query for the
/// issue, and the answer is read as the list's nodes are.
pub proof fn law_listed_subjects_can_be_fetched(
    b: BackendView,
    issue: JsonView,
    subject: SubjectView,
    outcome: Result<ResponseView, ClientError>,
)
    requires
        ready(b),
        issue_subject(issue, b.status_map->0) == Ok::<SubjectView, BackendErrorView>(subject),
        data_of(outcome) is Ok,
        member(data_of(outcome)->Ok_0, "issue"@) == Some(issue),
    ensures
        ({
            let pending = PendingView::Issue(subject.id, None);
            &&& begin(b, CallView::Get(subject.id)) == StepView::Send(
                get_request(text_member(issue, "identifier"@)->0),
                pending,
            )
            &&& after_reply(b, pending, outcome) == StepView::Done(
                Ok::<ReplyView, BackendErrorView>(ReplyView::Subject(subject)),
            )
        }),
{
    law_subjects_are_addressable(issue, b.status_map->0);
}

/// A page holds the subjects of its issues, in order, unless one of the issues
/// has none: the first of these says why there is no page.
pub proof fn law_pages_are_complete(nodes: Seq<JsonView>, map: StatusMapView)
    ensures
        match node_subjects(nodes, map) {
            Ok(subjects) => {
                &&& subjects.len() == nodes.len()
                &&& forall|i: int|
                    0 <= i < nodes.len() ==> issue_subject(#[trigger] nodes[i], map) == Ok::<
                        SubjectView,
                        BackendErrorView,
                    >(subjects[i])
            },
            Err(e) => exists|i: int|
                #![trigger nodes[i]]
                0 <= i < nodes.len() && issue_subject(nodes[i], map) == Err::<
                    SubjectView,
                    BackendErrorView,
                >(e) && forall|j: int|
                    0 <= j < i ==> issue_subject(#[trigger] nodes[j], map) is Ok,
        },
    decreases nodes.len(),
{
    if nodes.len() > 0 {
        let shorter = nodes.drop_last();
        law_pages_are_complete(shorter, map);
        match node_subjects(shorter, map) {
            Ok(subjects) => {
                assert forall|j: int| 0 <= j < shorter.len() implies issue_subject(
                    #[trigger] nodes[j],
                    map,
                ) == Ok::<SubjectView, BackendErrorView>(subjects[j]) by {
                    assert(shorter[j] == nodes[j]);
                }
                assert(nodes[nodes.len() - 1] == nodes.last());
            },
            Err(e) => {
                let i = choose|i: int|
                    #![trigger shorter[i]]
                    0 <= i < shorter.len() && issue_subject(shorter[i], map) == Err::<
                        SubjectView,
                        BackendErrorView,
                    >(e) && forall|j: int|
                        0 <= j < i ==> issue_subject(#[trigger] shorter[j], map) is Ok;
                assert(shorter[i] == nodes[i]);
                assert forall|j: int| 0 <= j < i implies issue_subject(
                    #[trigger] nodes[j],
                    map,
                ) is Ok by {
                    assert(shorter[j] == nodes[j]);
                }
            },
        }
    }
}

/// A page has from 1 to 100 issues, as many as were asked for where that is
/// possible, and 50 where nothing was said.
pub proof fn law_page_size(limit: Option<u32>)
    ensures
        1 <= page_size(limit) <= 100,
        limit matches Some(n) && 1 <= n <= 100 ==> page_size(limit) == limit->0,
        limit is None ==> page_size(limit) == 50,
{
}

/// A health check finds the backend fit exactly if the request succeeded and
/// brought no errors; else it says why not.
pub proof fn law_health_verdict(response: ResponseView)
    ensures
        health_of(response).status == HealthStatus::Healthy <==> response.succeeded()
            && response.errors.len() == 0,
        health_of(response).status == HealthStatus::Unhealthy <==> health_of(
            response,
        ).last_error is Some,
{
}

/// A response brings data exactly if it succeeded, without errors, and has
/// some.
pub proof fn law_data_needs_success(response: ResponseView)
    ensures
        response.outcome() is Ok <==> response.errors.len() == 0 && response.succeeded()
            && response.data is Some,
        response.outcome() matches Ok(data) ==> response.data == Some(data),
{
}

/// Every operation on issues asks for the same fields.
pub proof fn law_operations_ask_for_the_same_fields()
    ensures
        occurs_in(list_query_text(), ISSUE_FIELDS@),
        occurs_in(get_query_text(), ISSUE_FIELDS@),
        occurs_in(update_mutation_text(), ISSUE_FIELDS@),
        occurs_in(create_mutation_text(), ISSUE_FIELDS@),
{
    lemma_occurs_between(LIST_HEAD@, ISSUE_FIELDS@, NODE_TAIL@);
    lemma_occurs_between(GET_HEAD@, ISSUE_FIELDS@, GET_TAIL@);
    lemma_occurs_between(UPDATE_HEAD@, ISSUE_FIELDS@, NODE_TAIL@);
    lemma_occurs_between(CREATE_HEAD@, ISSUE_FIELDS@, NODE_TAIL@);
}

proof fn lemma_occurs_between(before: Seq<char>, part: Seq<char>, after: Seq<char>)
    ensures
        occurs_in(before + part + after, part),
{
    let at = before.len() as int;
    assert((before + part + after).subrange(at, at + part.len()) =~= part);
    assert(occurs_at(before + part + after, part, at));
}

/// An override whose value stands for no status is skipped, and the others
/// apply.
pub proof fn law_unknown_overrides_are_skipped(
    members: Map<Seq<char>, JsonView>,
    name: Seq<char>,
    value: JsonView,
)
    requires
        value_status(value) is None,
    ensures
        document_overrides(Some(JsonView::Object(members.insert(name, value))))
            == document_overrides(Some(JsonView::Object(members))).remove(name),
{
    assert(document_overrides(Some(JsonView::Object(members.insert(name, value))))
        =~= document_overrides(Some(JsonView::Object(members))).remove(name));
}

/// An error keeps the message that it was made of.
pub proof fn law_errors_keep_their_message(message: Seq<char>)
    ensures
        match graphql_error(message) {
            BackendErrorView::PermissionDenied(m) => m == message,
            BackendErrorView::NotFound(m) => m == message,
            BackendErrorView::Unavailable(m) => m == message,
            _ => false,
        },
{
}

/// The schema names the states of the team's workflow once they are known.
pub proof fn law_schema_names_the_workflow(b: BackendView, states: Seq<WorkflowStateView>)
    requires
        b.status_map is None,
    ensures
        schema_of(with_states(b, Some(states))).native_status_values == states.map_values(
            |s: WorkflowStateView| s.name,
        ),
{
}

/// The schema covers every subject: its kind, its status and its fields.
pub proof fn law_schema_covers_subjects(
    b: BackendView,
    issue: JsonView,
    map: StatusMapView,
    subject: SubjectView,
    key: Seq<char>,
)
    requires
        issue_subject(issue, map) == Ok::<SubjectView, BackendErrorView>(subject),
    ensures
        schema_of(b).kinds.contains(subject.kind),
        schema_of(b).status_values.contains(subject.status),
        subject.custom.contains_key(key) ==> exists|i: int|
            0 <= i < schema_of(b).custom_fields.len() && (#[trigger] schema_of(
                b,
            ).custom_fields[i]).key == key,
{
    let schema = schema_of(b);
    assert(schema.kinds[0] == subject.kind);
    assert(schema.status_values[0] == SubjectStatus::Ready);
    assert(schema.status_values[1] == SubjectStatus::InProgress);
    assert(schema.status_values[2] == SubjectStatus::Blocked);
    assert(schema.status_values[3] == SubjectStatus::Done);
    assert(schema.status_values[4] == SubjectStatus::Cancelled);
    assert(schema.custom_fields[1].key == "linear_state_name"@);
    assert(schema.custom_fields[2].key == "linear_state_type"@);
    assert(schema.custom_fields[3].key == "linear_uuid"@);
}

/// Every request says that it is JSON, and carries the token, as it is, exactly
/// if there is one.
pub proof fn law_requests_carry_the_token(token: Option<Seq<char>>, value: Seq<char>)
    ensures
        request_headers(token).contains(("content-type"@, "application/json"@)),
        request_headers(token).contains(("authorization"@, value)) <==> token == Some(value),
{
    reveal_strlit("content-type");
    reveal_strlit("authorization");
    assert("content-type"@.len() == 12 && "authorization"@.len() == 13);
    let headers = request_headers(token);
    assert(headers[0] == ("content-type"@, "application/json"@));
    if token is Some {
        assert(headers[1] == ("authorization"@, token->0));
    }
}

}
