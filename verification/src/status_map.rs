//! Mapping between Linear's workflow states and the normalized
//! [`SubjectStatus`].
//!
//! Every team names its workflow states as it likes, but each state has a
//! `type` that Linear fixes. [`StatusMap::from_workflow_states`] maps each
//! state by its type, unless an override names the state. Where several states
//! map to one status, the one with the lowest `position` stands for it when a
//! status is written.

use vstd::prelude::*;

use crate::client::{position_lt, state_views, LinearWorkflowState, WorkflowStateView};
use crate::string_map::{
    distinct_keys, lemma_lookup, lemma_mapped, mapped, pairs_map, upserted, StringMap,
};
use crate::subject::SubjectStatus;
use crate::text::{clone_opt, clone_texts, opt_text, same_text, texts};

verus! {

/// The names of the states that a Linear team starts with, which stand in
/// until the team's own are known.
pub open spec fn fallback_native_statuses() -> Seq<Seq<char>> {
    seq![
        "Backlog"@,
        "Triage"@,
        "Todo"@,
        "In Progress"@,
        "In Review"@,
        "Blocked"@,
        "Done"@,
        "Cancelled"@,
        "Duplicate"@,
    ]
}

/// The names of the states that a Linear team starts with.
pub fn fallback_statuses() -> (names: Vec<String>)
    ensures
        texts(names@) == fallback_native_statuses(),
{
    let mut names: Vec<String> = Vec::new();
    names.push("Backlog".to_owned());
    names.push("Triage".to_owned());
    names.push("Todo".to_owned());
    names.push("In Progress".to_owned());
    names.push("In Review".to_owned());
    names.push("Blocked".to_owned());
    names.push("Done".to_owned());
    names.push("Cancelled".to_owned());
    names.push("Duplicate".to_owned());
    assert(texts(names@) =~= fallback_native_statuses());
    names
}

/// The status that a state of this type has by default.
pub open spec fn type_status(state_type: Seq<char>) -> SubjectStatus {
    if state_type == "started"@ {
        SubjectStatus::InProgress
    } else if state_type == "completed"@ {
        SubjectStatus::Done
    } else if state_type == "cancelled"@ || state_type == "canceled"@ {
        SubjectStatus::Cancelled
    } else {
        SubjectStatus::Ready
    }
}

/// The status of a state: its override if there is one, else its type's.
pub open spec fn state_status(
    state: WorkflowStateView,
    overrides: Map<Seq<char>, SubjectStatus>,
) -> SubjectStatus {
    if overrides.contains_key(state.name) {
        overrides[state.name]
    } else {
        type_status(state.state_type)
    }
}

/// The states by id, each with its name and status, in the order in which
/// the ids first occur; the last state with an id says what it is.
pub open spec fn states_by_id(
    states: Seq<WorkflowStateView>,
    overrides: Map<Seq<char>, SubjectStatus>,
) -> Seq<(Seq<char>, (Seq<char>, SubjectStatus))>
    decreases states.len(),
{
    if states.len() == 0 {
        Seq::empty()
    } else {
        let state = states.last();
        upserted(
            states_by_id(states.drop_last(), overrides),
            state.id,
            (state.name, state_status(state, overrides)),
        )
    }
}

/// The index of the state that stands for `status`: the first of its states
/// that no later one precedes by position.
pub open spec fn target_index(
    states: Seq<WorkflowStateView>,
    overrides: Map<Seq<char>, SubjectStatus>,
    status: SubjectStatus,
) -> Option<int>
    decreases states.len(),
{
    if states.len() == 0 {
        None
    } else {
        let last = states.last();
        let before = target_index(states.drop_last(), overrides, status);
        if state_status(last, overrides) != status {
            before
        } else {
            match before {
                Some(i) if !position_lt(last.position, states[i].position) => Some(i),
                _ => Some(states.len() - 1),
            }
        }
    }
}

/// What a [`StatusMap`] says.
pub struct StatusMapView {
    /// State ids, each with the state's name and status.
    pub states: Seq<(Seq<char>, (Seq<char>, SubjectStatus))>,
    /// The id of the state that stands for a status.
    pub targets: Map<SubjectStatus, Seq<char>>,
    /// The names of the states as Linear listed them.
    pub names: Seq<Seq<char>>,
}

/// What the map of a workflow says.
pub open spec fn workflow_map(
    states: Seq<WorkflowStateView>,
    overrides: Map<Seq<char>, SubjectStatus>,
) -> StatusMapView {
    StatusMapView {
        states: states_by_id(states, overrides),
        targets: Map::new(
            |status: SubjectStatus| target_index(states, overrides, status) is Some,
            |status: SubjectStatus| states[target_index(states, overrides, status)->0].id,
        ),
        names: states.map_values(|s: WorkflowStateView| s.name),
    }
}

/// What the map without states says.
pub open spec fn empty_map() -> StatusMapView {
    StatusMapView { states: Seq::empty(), targets: Map::empty(), names: Seq::empty() }
}

/// The status of the first state with this name.
pub open spec fn named_status(
    states: Seq<(Seq<char>, (Seq<char>, SubjectStatus))>,
    name: Seq<char>,
) -> Option<SubjectStatus>
    decreases states.len(),
{
    if states.len() == 0 {
        None
    } else {
        match named_status(states.drop_last(), name) {
            Some(status) => Some(status),
            None => if states.last().1.0 == name {
                Some(states.last().1.1)
            } else {
                None
            },
        }
    }
}

impl StatusMapView {
    /// The status of the state with this id.
    pub open spec fn status_of(self, id: Seq<char>) -> Option<SubjectStatus> {
        if pairs_map(self.states).contains_key(id) {
            Some(pairs_map(self.states)[id].1)
        } else {
            None
        }
    }

    /// The status of a state with this name.
    pub open spec fn status_named(self, name: Seq<char>) -> Option<SubjectStatus> {
        named_status(self.states, name)
    }

    /// The id of the state that stands for `status`.
    pub open spec fn target(self, status: SubjectStatus) -> Option<Seq<char>> {
        if self.targets.contains_key(status) {
            Some(self.targets[status])
        } else {
            None
        }
    }
}

/// A value for some of the statuses.
#[derive(Debug)]
struct PerStatus<T> {
    ready: Option<T>,
    in_progress: Option<T>,
    blocked: Option<T>,
    done: Option<T>,
    cancelled: Option<T>,
}

impl<T> PerStatus<T> {
    /// The value of `status`.
    spec fn slot(&self, status: SubjectStatus) -> Option<T> {
        match status {
            SubjectStatus::Ready => self.ready,
            SubjectStatus::InProgress => self.in_progress,
            SubjectStatus::Blocked => self.blocked,
            SubjectStatus::Done => self.done,
            SubjectStatus::Cancelled => self.cancelled,
        }
    }

    fn new() -> (slots: Self)
        ensures
            forall|status: SubjectStatus| #[trigger] slots.slot(status) is None,
    {
        PerStatus { ready: None, in_progress: None, blocked: None, done: None, cancelled: None }
    }

    fn get(&self, status: SubjectStatus) -> (value: Option<&T>)
        ensures
            match value {
                Some(v) => self.slot(status) == Some(*v),
                None => self.slot(status) is None,
            },
    {
        match status {
            SubjectStatus::Ready => self.ready.as_ref(),
            SubjectStatus::InProgress => self.in_progress.as_ref(),
            SubjectStatus::Blocked => self.blocked.as_ref(),
            SubjectStatus::Done => self.done.as_ref(),
            SubjectStatus::Cancelled => self.cancelled.as_ref(),
        }
    }

    fn set(&mut self, status: SubjectStatus, value: T)
        ensures
            final(self).slot(status) == Some(value),
            forall|other: SubjectStatus|
                other != status ==> #[trigger] final(self).slot(other) == old(self).slot(other),
    {
        match status {
            SubjectStatus::Ready => {
                self.ready = Some(value);
            },
            SubjectStatus::InProgress => {
                self.in_progress = Some(value);
            },
            SubjectStatus::Blocked => {
                self.blocked = Some(value);
            },
            SubjectStatus::Done => {
                self.done = Some(value);
            },
            SubjectStatus::Cancelled => {
                self.cancelled = Some(value);
            },
        }
    }
}

/// A map in both directions between a team's workflow states and
/// [`SubjectStatus`].
#[derive(Debug)]
pub struct StatusMap {
    /// State id -> (state name, status).
    by_state_id: StringMap<(String, SubjectStatus)>,
    /// Status -> id of the state that stands for it.
    by_animus_status: PerStatus<String>,
    /// State names in the order in which Linear listed them.
    native_names: Vec<String>,
}

/// A state's name and status.
spec fn entry_view(entry: (String, SubjectStatus)) -> (Seq<char>, SubjectStatus) {
    (entry.0@, entry.1)
}

impl View for StatusMap {
    type V = StatusMapView;

    closed spec fn view(&self) -> StatusMapView {
        StatusMapView {
            states: mapped(
                self.by_state_id.pairs(),
                |e: (String, SubjectStatus)| entry_view(e),
            ),
            targets: Map::new(
                |status: SubjectStatus| self.by_animus_status.slot(status) is Some,
                |status: SubjectStatus| self.by_animus_status.slot(status)->0@,
            ),
            names: texts(self.native_names@),
        }
    }
}

impl Clone for StatusMap {
    fn clone(&self) -> (copy: Self)
        ensures
            copy@ == self@,
    {
        proof {
            use_type_invariant(self);
        }
        let ghost shown = |e: (String, SubjectStatus)| entry_view(e);
        let mut entries: Vec<(String, (String, SubjectStatus))> = Vec::new();
        let mut i: usize = 0;
        while i < self.by_state_id.entries.len()
            invariant
                i <= self.by_state_id.entries.len(),
                entries@.len() == i,
                forall|k: int|
                    0 <= k < i ==> {
                        &&& (#[trigger] entries@[k]).0@ == self.by_state_id.entries@[k].0@
                        &&& entry_view(entries@[k].1) == entry_view(
                            self.by_state_id.entries@[k].1,
                        )
                    },
            decreases self.by_state_id.entries.len() - i,
        {
            let entry = &self.by_state_id.entries[i];
            entries.push((entry.0.clone(), (entry.1.0.clone(), entry.1.1)));
            i = i + 1;
        }
        let by_state_id = StringMap { entries };
        assert(mapped(by_state_id.pairs(), shown) =~= mapped(self.by_state_id.pairs(), shown));
        assert forall|j: int, k: int| 0 <= j < k < by_state_id.pairs().len() implies (
        #[trigger] by_state_id.pairs()[j]).0 != (#[trigger] by_state_id.pairs()[k]).0 by {
            assert(self.by_state_id.pairs()[j].0 != self.by_state_id.pairs()[k].0);
        }
        let copy = StatusMap {
            by_state_id,
            by_animus_status: clone_ids(&self.by_animus_status),
            native_names: clone_texts(self.native_names.as_slice()),
        };
        assert(copy@.targets =~= self@.targets);
        copy
    }
}

/// Copies of the ids.
fn clone_ids(ids: &PerStatus<String>) -> (copies: PerStatus<String>)
    ensures
        forall|status: SubjectStatus| opt_text(#[trigger] copies.slot(status)) == opt_text(
            ids.slot(status),
        ),
{
    PerStatus {
        ready: clone_opt(&ids.ready),
        in_progress: clone_opt(&ids.in_progress),
        blocked: clone_opt(&ids.blocked),
        done: clone_opt(&ids.done),
        cancelled: clone_opt(&ids.cancelled),
    }
}

impl Default for StatusMap {
    /// The map without states.
    fn default() -> (map: Self)
        ensures
            map@ == empty_map(),
    {
        let map = StatusMap {
            by_state_id: StringMap::new(),
            by_animus_status: PerStatus::new(),
            native_names: Vec::new(),
        };
        assert(map@.states =~= empty_map().states);
        assert(map@.targets =~= empty_map().targets);
        assert(map@.names =~= empty_map().names);
        map
    }
}

impl StatusMap {
    /// No two entries share a state id.
    #[verifier::type_invariant]
    spec fn valid(self) -> bool {
        distinct_keys(self.by_state_id.pairs())
    }

    /// Builds the map of a team's workflow.
    ///
    /// A state has the status that `overrides` gives its name, else the one
    /// that [`type_to_animus`] gives its type. For the other direction the
    /// state with the lowest `position` stands for a status.
    pub fn from_workflow_states(
        states: &[LinearWorkflowState],
        overrides: &StringMap<SubjectStatus>,
    ) -> (map: Self)
        ensures
            map@ == workflow_map(state_views(states@), overrides@),
    {
        let ghost views = state_views(states@);
        let ghost entries = |e: (String, SubjectStatus)| entry_view(e);
        let mut by_state_id: StringMap<(String, SubjectStatus)> = StringMap::new();
        let mut candidates: PerStatus<usize> = PerStatus::new();
        let mut native_names: Vec<String> = Vec::new();
        assert(mapped(by_state_id.pairs(), entries) =~= Seq::empty());
        let mut i: usize = 0;
        while i < states.len()
            invariant
                i <= states.len(),
                views == state_views(states@),
                entries == (|e: (String, SubjectStatus)| entry_view(e)),
                distinct_keys(by_state_id.pairs()),
                mapped(by_state_id.pairs(), entries) == states_by_id(
                    views.take(i as int),
                    overrides@,
                ),
                forall|status: SubjectStatus|
                    match #[trigger] candidates.slot(status) {
                        Some(c) => c < i && target_index(views.take(i as int), overrides@, status)
                            == Some(c as int),
                        None => target_index(views.take(i as int), overrides@, status) is None,
                    },
                texts(native_names@) == views.take(i as int).map_values(
                    |s: WorkflowStateView| s.name,
                ),
            decreases states.len() - i,
        {
            let state = &states[i];
            let ghost seen = views.take(i as int);
            let ghost now = views.take(i + 1);
            assert(now.drop_last() =~= seen);
            assert(now.last() == state@);

            let ghost names = texts(native_names@);
            native_names.push(state.name.clone());
            assert(texts(native_names@) =~= names.push(state.name@));
            assert(now =~= seen.push(state@));
            assert(texts(native_names@) =~= now.map_values(|s: WorkflowStateView| s.name));

            let status = match overrides.get(state.name.as_str()) {
                Some(chosen) => *chosen,
                None => type_to_animus(state.state_type.as_str()),
            };
            assert(status == state_status(state@, overrides@));

            proof {
                lemma_mapped(by_state_id.pairs(), entries, state.id@, (state.name, status));
            }
            by_state_id.insert(state.id.clone(), (state.name.clone(), status));

            let take_it = match candidates.get(status) {
                Some(c) => state.position.precedes(&states[*c].position),
                None => true,
            };
            assert forall|c: int| 0 <= c < i implies #[trigger] now[c] == states@[c]@ by {}
            if take_it {
                candidates.set(status, i);
            }
            i = i + 1;
        }
        assert(views.take(i as int) =~= views);

        let by_animus_status = chosen_ids(states, &candidates);
        let map = StatusMap { by_state_id, by_animus_status, native_names };
        assert(map@.targets =~= workflow_map(views, overrides@).targets);
        map
    }

    /// The status of the state with this id, `None` if the workflow has no
    /// such state.
    pub fn linear_to_animus(&self, state_id: &str) -> (status: Option<SubjectStatus>)
        ensures
            status == self@.status_of(state_id@),
    {
        proof {
            let entries = |e: (String, SubjectStatus)| entry_view(e);
            lemma_mapped(self.by_state_id.pairs(), entries, state_id@, arbitrary());
            lemma_lookup(self.by_state_id.pairs(), state_id@);
            lemma_lookup(self@.states, state_id@);
        }
        match self.by_state_id.get(state_id) {
            Some(entry) => Some(entry.1),
            None => None,
        }
    }

    /// The status of the first state with this name. Case matters.
    pub fn linear_name_to_animus(&self, state_name: &str) -> (status: Option<SubjectStatus>)
        ensures
            status == self@.status_named(state_name@),
    {
        let ghost states = self@.states;
        let mut i: usize = 0;
        while i < self.by_state_id.entries.len()
            invariant
                i <= self.by_state_id.entries.len(),
                states == self@.states,
                named_status(states.take(i as int), state_name@) is None,
            decreases self.by_state_id.entries.len() - i,
        {
            let entry = &self.by_state_id.entries[i];
            assert(states.take(i + 1).drop_last() =~= states.take(i as int));
            if same_text(entry.1.0.as_str(), state_name) {
                proof {
                    lemma_named_status_prefix(states, i + 1, state_name@);
                }
                return Some(entry.1.1);
            }
            i = i + 1;
        }
        assert(states.take(i as int) =~= states);
        None
    }

    /// The id of the state that stands for `status`, `None` if no state of the
    /// workflow maps to it.
    pub fn animus_to_linear_state_id(&self, status: SubjectStatus) -> (state_id: Option<&str>)
        ensures
            match state_id {
                Some(id) => self@.target(status) == Some(id@),
                None => self@.target(status) is None,
            },
    {
        match self.by_animus_status.get(status) {
            Some(id) => Some(id.as_str()),
            None => None,
        }
    }

    /// The names of the workflow's states as Linear listed them.
    pub fn native_state_names(&self) -> (names: &[String])
        ensures
            texts(names@) == self@.names,
    {
        self.native_names.as_slice()
    }

    /// Every state as (id, name, status). No two share an id.
    pub fn iter(&self) -> (states: Vec<(&str, &str, SubjectStatus)>)
        ensures
            states@.map_values(
                |s: (&str, &str, SubjectStatus)| (s.0@, (s.1@, s.2)),
            ) == self@.states,
            distinct_keys(self@.states),
    {
        proof {
            use_type_invariant(self);
            assert forall|j: int, k: int| 0 <= j < k < self@.states.len() implies (
            #[trigger] self@.states[j]).0 != (#[trigger] self@.states[k]).0 by {
                assert(self.by_state_id.pairs()[j].0 != self.by_state_id.pairs()[k].0);
            }
        }
        let mut states: Vec<(&str, &str, SubjectStatus)> = Vec::new();
        let ghost shown = |s: (&str, &str, SubjectStatus)| (s.0@, (s.1@, s.2));
        let mut i: usize = 0;
        while i < self.by_state_id.entries.len()
            invariant
                i <= self.by_state_id.entries.len(),
                shown == (|s: (&str, &str, SubjectStatus)| (s.0@, (s.1@, s.2))),
                states@.map_values(shown) == self@.states.take(i as int),
            decreases self.by_state_id.entries.len() - i,
        {
            let entry = &self.by_state_id.entries[i];
            let ghost before = states@;
            states.push((entry.0.as_str(), entry.1.0.as_str(), entry.1.1));
            assert(states@.map_values(shown) =~= before.map_values(shown).push(
                self@.states[i as int],
            ));
            assert(self@.states.take(i + 1) =~= self@.states.take(i as int).push(
                self@.states[i as int],
            ));
            i = i + 1;
        }
        assert(self@.states.take(i as int) =~= self@.states);
        states
    }
}

/// A name found among the first states is found among all of them.
proof fn lemma_named_status_prefix(
    states: Seq<(Seq<char>, (Seq<char>, SubjectStatus))>,
    n: int,
    name: Seq<char>,
)
    requires
        0 <= n <= states.len(),
        named_status(states.take(n), name) is Some,
    ensures
        named_status(states, name) == named_status(states.take(n), name),
    decreases states.len() - n,
{
    if n < states.len() {
        assert(states.take(n + 1).drop_last() =~= states.take(n));
        lemma_named_status_prefix(states, n + 1, name);
    } else {
        assert(states.take(n) =~= states);
    }
}

/// The ids of the chosen states.
fn chosen_ids(states: &[LinearWorkflowState], chosen: &PerStatus<usize>) -> (ids: PerStatus<
    String,
>)
    requires
        forall|status: SubjectStatus|
            (#[trigger] chosen.slot(status)) matches Some(c) ==> c < states.len(),
    ensures
        forall|status: SubjectStatus|
            match #[trigger] ids.slot(status) {
                Some(id) => chosen.slot(status) is Some && id@ == states@[chosen.slot(
                    status,
                )->0 as int].id@,
                None => chosen.slot(status) is None,
            },
{
    assert(chosen.slot(SubjectStatus::Ready) == chosen.ready);
    assert(chosen.slot(SubjectStatus::InProgress) == chosen.in_progress);
    assert(chosen.slot(SubjectStatus::Blocked) == chosen.blocked);
    assert(chosen.slot(SubjectStatus::Done) == chosen.done);
    assert(chosen.slot(SubjectStatus::Cancelled) == chosen.cancelled);
    PerStatus {
        ready: chosen_id(states, chosen.ready),
        in_progress: chosen_id(states, chosen.in_progress),
        blocked: chosen_id(states, chosen.blocked),
        done: chosen_id(states, chosen.done),
        cancelled: chosen_id(states, chosen.cancelled),
    }
}

fn chosen_id(states: &[LinearWorkflowState], chosen: Option<usize>) -> (id: Option<String>)
    requires
        chosen matches Some(c) ==> c < states.len(),
    ensures
        match id {
            Some(t) => chosen is Some && t@ == states@[chosen->0 as int].id@,
            None => chosen is None,
        },
{
    match chosen {
        Some(c) => Some(states[c].id.clone()),
        None => None,
    }
}

/// The status that a state of this type has by default. Types that Linear may
/// add one day count as ready, so that work on them does not stop.
pub fn type_to_animus(state_type: &str) -> (status: SubjectStatus)
    ensures
        status == type_status(state_type@),
{
    if same_text(state_type, "started") {
        SubjectStatus::InProgress
    } else if same_text(state_type, "completed") {
        SubjectStatus::Done
    } else if same_text(state_type, "cancelled") || same_text(state_type, "canceled") {
        SubjectStatus::Cancelled
    } else {
        SubjectStatus::Ready
    }
}

}
