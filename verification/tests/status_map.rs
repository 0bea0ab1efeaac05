//! The map between workflow states and statuses.

use animus_subject_linear::client::{LinearWorkflowState, Position};
use animus_subject_linear::status_map::{type_to_animus, StatusMap};
use animus_subject_linear::string_map::StringMap;
use animus_subject_linear::subject::SubjectStatus;

fn state(id: &str, name: &str, state_type: &str, position: f64) -> LinearWorkflowState {
    LinearWorkflowState {
        id: id.to_string(),
        name: name.to_string(),
        state_type: state_type.to_string(),
        position: Position::from_bits(position.to_bits()),
    }
}

#[test]
fn type_maps_to_expected_buckets() {
    assert_eq!(type_to_animus("triage"), SubjectStatus::Ready);
    assert_eq!(type_to_animus("backlog"), SubjectStatus::Ready);
    assert_eq!(type_to_animus("unstarted"), SubjectStatus::Ready);
    assert_eq!(type_to_animus("started"), SubjectStatus::InProgress);
    assert_eq!(type_to_animus("completed"), SubjectStatus::Done);
    assert_eq!(type_to_animus("cancelled"), SubjectStatus::Cancelled);
    assert_eq!(type_to_animus("unknown-future-type"), SubjectStatus::Ready);
}

#[test]
fn both_spellings_of_cancelled_are_known() {
    assert_eq!(type_to_animus("canceled"), SubjectStatus::Cancelled);
    assert_eq!(type_to_animus("Cancelled"), SubjectStatus::Ready);
}

#[test]
fn from_workflow_states_builds_both_directions() {
    let states = vec![
        state("uuid-spec", "Spec", "backlog", 1.0),
        state("uuid-prog", "In Progress", "started", 2.0),
        state("uuid-done", "Shipped", "completed", 3.0),
        state("uuid-canc", "Won't Do", "cancelled", 4.0),
    ];
    let overrides = StringMap::new();
    let map = StatusMap::from_workflow_states(&states, &overrides);

    assert_eq!(
        map.linear_to_animus("uuid-spec"),
        Some(SubjectStatus::Ready)
    );
    assert_eq!(
        map.linear_to_animus("uuid-prog"),
        Some(SubjectStatus::InProgress)
    );
    assert_eq!(map.linear_to_animus("uuid-done"), Some(SubjectStatus::Done));
    assert_eq!(
        map.linear_to_animus("uuid-canc"),
        Some(SubjectStatus::Cancelled)
    );

    assert_eq!(
        map.animus_to_linear_state_id(SubjectStatus::Ready),
        Some("uuid-spec")
    );
    assert_eq!(
        map.animus_to_linear_state_id(SubjectStatus::InProgress),
        Some("uuid-prog")
    );
    assert_eq!(
        map.animus_to_linear_state_id(SubjectStatus::Done),
        Some("uuid-done")
    );
    assert_eq!(
        map.animus_to_linear_state_id(SubjectStatus::Cancelled),
        Some("uuid-canc")
    );

    assert_eq!(map.native_state_names().len(), 4);
    assert!(map.native_state_names().iter().any(|n| n == "Spec"));
}

#[test]
fn override_wins_over_type_based_mapping() {
    let states = vec![
        state("uuid-spec", "Spec", "backlog", 1.0),
        state("uuid-impl", "Implementation", "started", 2.0),
    ];
    let mut overrides = StringMap::new();
    overrides.insert("Spec".to_string(), SubjectStatus::InProgress);
    let map = StatusMap::from_workflow_states(&states, &overrides);

    assert_eq!(
        map.linear_to_animus("uuid-spec"),
        Some(SubjectStatus::InProgress)
    );
    assert_eq!(
        map.animus_to_linear_state_id(SubjectStatus::InProgress),
        Some("uuid-spec")
    );
}

#[test]
fn ambiguous_status_resolves_to_lowest_position() {
    let states = vec![
        state("uuid-backlog", "Backlog", "backlog", 5.0),
        state("uuid-todo", "Todo", "unstarted", 1.0),
        state("uuid-prog", "In Progress", "started", 2.0),
    ];
    let map = StatusMap::from_workflow_states(&states, &StringMap::new());
    assert_eq!(
        map.animus_to_linear_state_id(SubjectStatus::Ready),
        Some("uuid-todo"),
        "lowest-position Ready candidate must win"
    );
}

#[test]
fn unmapped_status_returns_none_for_reverse_lookup() {
    let states = vec![
        state("uuid-todo", "Todo", "unstarted", 1.0),
        state("uuid-prog", "In Progress", "started", 2.0),
        state("uuid-done", "Done", "completed", 3.0),
    ];
    let map = StatusMap::from_workflow_states(&states, &StringMap::new());
    assert!(map
        .animus_to_linear_state_id(SubjectStatus::Cancelled)
        .is_none());
}

#[test]
fn linear_name_to_animus_matches_by_state_name() {
    let states = vec![
        state("uuid-spec", "Spec", "backlog", 1.0),
        state("uuid-prog", "Implementation", "started", 2.0),
    ];
    let map = StatusMap::from_workflow_states(&states, &StringMap::new());
    assert_eq!(
        map.linear_name_to_animus("Spec"),
        Some(SubjectStatus::Ready)
    );
    assert_eq!(
        map.linear_name_to_animus("Implementation"),
        Some(SubjectStatus::InProgress)
    );
    assert!(map.linear_name_to_animus("Nonexistent").is_none());
}

#[test]
fn first_of_equal_positions_stands_for_its_status() {
    let states = vec![
        state("uuid-a", "A", "backlog", 2.0),
        state("uuid-b", "B", "triage", -0.0),
        state("uuid-c", "C", "unstarted", 0.0),
        state("uuid-d", "D", "unstarted", 0.5),
    ];
    let map = StatusMap::from_workflow_states(&states, &StringMap::new());
    assert_eq!(
        map.animus_to_linear_state_id(SubjectStatus::Ready),
        Some("uuid-b")
    );
}

#[test]
fn written_status_is_read_back() {
    let states = vec![
        state("uuid-a", "A", "backlog", 3.0),
        state("uuid-b", "B", "started", 2.0),
        state("uuid-c", "C", "started", 1.0),
        state("uuid-d", "D", "completed", 0.0),
    ];
    let mut overrides = StringMap::new();
    overrides.insert("B".to_string(), SubjectStatus::Blocked);
    let map = StatusMap::from_workflow_states(&states, &overrides);
    for status in [
        SubjectStatus::Ready,
        SubjectStatus::InProgress,
        SubjectStatus::Blocked,
        SubjectStatus::Done,
    ] {
        let id = map.animus_to_linear_state_id(status).expect("some state");
        assert_eq!(map.linear_to_animus(id), Some(status));
    }
}

#[test]
fn last_state_with_an_id_counts() {
    let states = vec![
        state("uuid-a", "A", "backlog", 1.0),
        state("uuid-b", "B", "started", 2.0),
        state("uuid-a", "A2", "completed", 3.0),
    ];
    let map = StatusMap::from_workflow_states(&states, &StringMap::new());
    assert_eq!(map.linear_to_animus("uuid-a"), Some(SubjectStatus::Done));
    assert!(map.linear_name_to_animus("A").is_none());
    assert_eq!(map.linear_name_to_animus("A2"), Some(SubjectStatus::Done));
    assert_eq!(map.iter().len(), 2);
    assert_eq!(map.native_state_names(), &vec!["A", "B", "A2"]);
}

#[test]
fn copies_of_states_and_maps_are_equal() {
    let states = vec![state("uuid-a", "A", "backlog", 0.0)];
    assert_eq!(states[0].clone(), state("uuid-a", "A", "backlog", -0.0));
    assert_ne!(states[0].clone(), state("uuid-a", "A", "backlog", 1.0));
    let map = StatusMap::from_workflow_states(&states, &StringMap::new());
    assert_eq!(map.clone().iter(), map.iter());
}

#[test]
fn iter_yields_every_state() {
    let states = vec![
        state("uuid-a", "A", "backlog", 1.0),
        state("uuid-b", "B", "started", 2.0),
    ];
    let map = StatusMap::from_workflow_states(&states, &StringMap::new());
    assert_eq!(
        map.iter(),
        vec![
            ("uuid-a", "A", SubjectStatus::Ready),
            ("uuid-b", "B", SubjectStatus::InProgress)
        ]
    );
    assert!(StatusMap::default().iter().is_empty());
    assert!(StatusMap::default().linear_to_animus("uuid-a").is_none());
}

#[test]
fn positions_compare_as_doubles_do() {
    let values = [
        f64::NEG_INFINITY,
        -3.5,
        -1.0,
        -0.0,
        0.0,
        f64::MIN_POSITIVE,
        1.0,
        2.5,
        1e300,
        f64::INFINITY,
        f64::NAN,
        -f64::NAN,
    ];
    for a in values {
        for b in values {
            assert_eq!(
                Position::from_bits(a.to_bits()).precedes(&Position::from_bits(b.to_bits())),
                a < b,
                "{a} < {b}"
            );
            assert_eq!(
                Position::from_bits(a.to_bits()) == Position::from_bits(b.to_bits()),
                a == b,
                "{a} == {b}"
            );
        }
    }
}
