use tes_cli::state::{same_text, state_from_wire_name, tes_state_to_str, State};

const ALL: [State; 11] = [
    State::Unknown,
    State::Queued,
    State::Initializing,
    State::Running,
    State::Paused,
    State::Complete,
    State::ExecutorError,
    State::SystemError,
    State::Canceled,
    State::Canceling,
    State::Preempted,
];

#[test]
fn every_state_has_its_label() {
    let expected = [
        "Unknown",
        "Queued",
        "Initializing",
        "Running",
        "Paused",
        "Complete",
        "Executor Error",
        "System Error",
        "Canceled",
        "Canceling",
        "Preempted",
    ];
    for (state, label) in ALL.iter().zip(expected.iter()) {
        assert_eq!(tes_state_to_str(&Some(*state)), *label);
    }
}

#[test]
fn absent_state_is_none() {
    assert_eq!(tes_state_to_str(&None), "None");
}

#[test]
fn labels_are_pairwise_distinct() {
    let mut labels: Vec<&str> = ALL.iter().map(|s| tes_state_to_str(&Some(*s))).collect();
    labels.push(tes_state_to_str(&None));
    for i in 0..labels.len() {
        for j in 0..labels.len() {
            if i != j {
                assert_ne!(labels[i], labels[j]);
            }
        }
    }
}

#[test]
fn unknown_state_is_not_the_absent_one() {
    assert_ne!(tes_state_to_str(&Some(State::Unknown)), tes_state_to_str(&None));
}

#[test]
fn wire_names_find_their_states() {
    let names = [
        "UNKNOWN",
        "QUEUED",
        "INITIALIZING",
        "RUNNING",
        "PAUSED",
        "COMPLETE",
        "EXECUTOR_ERROR",
        "SYSTEM_ERROR",
        "CANCELED",
        "CANCELING",
        "PREEMPTED",
    ];
    for (state, name) in ALL.iter().zip(names.iter()) {
        assert_eq!(state_from_wire_name(name), Some(*state));
    }
}

#[test]
fn wire_names_match_whole_and_exact() {
    assert_eq!(state_from_wire_name("running"), None);
    assert_eq!(state_from_wire_name("RUNNING "), None);
    assert_eq!(state_from_wire_name("RUN"), None);
    assert_eq!(state_from_wire_name(""), None);
    assert_eq!(state_from_wire_name("Executor Error"), None);
    assert_eq!(state_from_wire_name("CANCELLED"), None);
}

#[test]
fn same_text_compares_characters() {
    assert!(same_text("", ""));
    assert!(same_text("abc", "abc"));
    assert!(!same_text("abc", "abd"));
    assert!(!same_text("abc", "ab"));
    assert!(!same_text("ab", "abc"));
    assert!(same_text("é√", "é√"));
    assert!(!same_text("é", "e"));
}
