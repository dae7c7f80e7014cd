//! The lifecycle states of a task and their textual forms.

use vstd::prelude::*;
use vstd::string::*;

verus! {

/// A lifecycle state as the backend reports it. The client only displays it.
#[derive(Clone, Copy, Debug, PartialEq, Eq, Structural)]
pub enum State {
    Unknown,
    Queued,
    Initializing,
    Running,
    Paused,
    Complete,
    ExecutorError,
    SystemError,
    Canceled,
    Canceling,
    Preempted,
}

/// The label shown for a state; an absent state has a label of its own.
pub open spec fn label_of(state: Option<State>) -> Seq<char> {
    match state {
        Some(State::Unknown) => "Unknown"@,
        Some(State::Queued) => "Queued"@,
        Some(State::Initializing) => "Initializing"@,
        Some(State::Running) => "Running"@,
        Some(State::Paused) => "Paused"@,
        Some(State::Complete) => "Complete"@,
        Some(State::ExecutorError) => "Executor Error"@,
        Some(State::SystemError) => "System Error"@,
        Some(State::Canceled) => "Canceled"@,
        Some(State::Canceling) => "Canceling"@,
        Some(State::Preempted) => "Preempted"@,
        None => "None"@,
    }
}

/// The name under which a state travels in a request or a response.
pub open spec fn wire_name(state: State) -> Seq<char> {
    match state {
        State::Unknown => "UNKNOWN"@,
        State::Queued => "QUEUED"@,
        State::Initializing => "INITIALIZING"@,
        State::Running => "RUNNING"@,
        State::Paused => "PAUSED"@,
        State::Complete => "COMPLETE"@,
        State::ExecutorError => "EXECUTOR_ERROR"@,
        State::SystemError => "SYSTEM_ERROR"@,
        State::Canceled => "CANCELED"@,
        State::Canceling => "CANCELING"@,
        State::Preempted => "PREEMPTED"@,
    }
}

/// The state that a wire name stands for, if it is one of the eleven names.
pub open spec fn state_named(name: Seq<char>) -> Option<State> {
    if name == wire_name(State::Unknown) {
        Some(State::Unknown)
    } else if name == wire_name(State::Queued) {
        Some(State::Queued)
    } else if name == wire_name(State::Initializing) {
        Some(State::Initializing)
    } else if name == wire_name(State::Running) {
        Some(State::Running)
    } else if name == wire_name(State::Paused) {
        Some(State::Paused)
    } else if name == wire_name(State::Complete) {
        Some(State::Complete)
    } else if name == wire_name(State::ExecutorError) {
        Some(State::ExecutorError)
    } else if name == wire_name(State::SystemError) {
        Some(State::SystemError)
    } else if name == wire_name(State::Canceled) {
        Some(State::Canceled)
    } else if name == wire_name(State::Canceling) {
        Some(State::Canceling)
    } else if name == wire_name(State::Preempted) {
        Some(State::Preempted)
    } else {
        None
    }
}

/// Makes the characters of every label known to the verifier.
pub proof fn reveal_labels()
    ensures
        "Unknown"@ =~= seq!['U', 'n', 'k', 'n', 'o', 'w', 'n'],
        "Queued"@ =~= seq!['Q', 'u', 'e', 'u', 'e', 'd'],
        "Initializing"@ =~= seq!['I', 'n', 'i', 't', 'i', 'a', 'l', 'i', 'z', 'i', 'n', 'g'],
        "Running"@ =~= seq!['R', 'u', 'n', 'n', 'i', 'n', 'g'],
        "Paused"@ =~= seq!['P', 'a', 'u', 's', 'e', 'd'],
        "Complete"@ =~= seq!['C', 'o', 'm', 'p', 'l', 'e', 't', 'e'],
        "Executor Error"@ =~= seq![
            'E', 'x', 'e', 'c', 'u', 't', 'o', 'r', ' ', 'E', 'r', 'r', 'o', 'r',
        ],
        "System Error"@ =~= seq!['S', 'y', 's', 't', 'e', 'm', ' ', 'E', 'r', 'r', 'o', 'r'],
        "Canceled"@ =~= seq!['C', 'a', 'n', 'c', 'e', 'l', 'e', 'd'],
        "Canceling"@ =~= seq!['C', 'a', 'n', 'c', 'e', 'l', 'i', 'n', 'g'],
        "Preempted"@ =~= seq!['P', 'r', 'e', 'e', 'm', 'p', 't', 'e', 'd'],
        "None"@ =~= seq!['N', 'o', 'n', 'e'],
{
    reveal_strlit("Unknown");
    reveal_strlit("Queued");
    reveal_strlit("Initializing");
    reveal_strlit("Running");
    reveal_strlit("Paused");
    reveal_strlit("Complete");
    reveal_strlit("Executor Error");
    reveal_strlit("System Error");
    reveal_strlit("Canceled");
    reveal_strlit("Canceling");
    reveal_strlit("Preempted");
    reveal_strlit("None");
}

/// Makes the characters of every wire name known to the verifier.
pub proof fn reveal_wire_names()
    ensures
        "UNKNOWN"@ =~= seq!['U', 'N', 'K', 'N', 'O', 'W', 'N'],
        "QUEUED"@ =~= seq!['Q', 'U', 'E', 'U', 'E', 'D'],
        "INITIALIZING"@ =~= seq!['I', 'N', 'I', 'T', 'I', 'A', 'L', 'I', 'Z', 'I', 'N', 'G'],
        "RUNNING"@ =~= seq!['R', 'U', 'N', 'N', 'I', 'N', 'G'],
        "PAUSED"@ =~= seq!['P', 'A', 'U', 'S', 'E', 'D'],
        "COMPLETE"@ =~= seq!['C', 'O', 'M', 'P', 'L', 'E', 'T', 'E'],
        "EXECUTOR_ERROR"@ =~= seq![
            'E', 'X', 'E', 'C', 'U', 'T', 'O', 'R', '_', 'E', 'R', 'R', 'O', 'R',
        ],
        "SYSTEM_ERROR"@ =~= seq!['S', 'Y', 'S', 'T', 'E', 'M', '_', 'E', 'R', 'R', 'O', 'R'],
        "CANCELED"@ =~= seq!['C', 'A', 'N', 'C', 'E', 'L', 'E', 'D'],
        "CANCELING"@ =~= seq!['C', 'A', 'N', 'C', 'E', 'L', 'I', 'N', 'G'],
        "PREEMPTED"@ =~= seq!['P', 'R', 'E', 'E', 'M', 'P', 'T', 'E', 'D'],
{
    reveal_strlit("UNKNOWN");
    reveal_strlit("QUEUED");
    reveal_strlit("INITIALIZING");
    reveal_strlit("RUNNING");
    reveal_strlit("PAUSED");
    reveal_strlit("COMPLETE");
    reveal_strlit("EXECUTOR_ERROR");
    reveal_strlit("SYSTEM_ERROR");
    reveal_strlit("CANCELED");
    reveal_strlit("CANCELING");
    reveal_strlit("PREEMPTED");
}

/// The label of an optional state: a fixed text per state, and `None` for an
/// absent one.
pub fn tes_state_to_str(state: &Option<State>) -> (label: &'static str)
    ensures
        label@ == label_of(*state),
{
    match state {
        Some(State::Unknown) => "Unknown",
        Some(State::Queued) => "Queued",
        Some(State::Initializing) => "Initializing",
        Some(State::Running) => "Running",
        Some(State::Paused) => "Paused",
        Some(State::Complete) => "Complete",
        Some(State::ExecutorError) => "Executor Error",
        Some(State::SystemError) => "System Error",
        Some(State::Canceled) => "Canceled",
        Some(State::Canceling) => "Canceling",
        Some(State::Preempted) => "Preempted",
        None => "None",
    }
}

/// Whether two texts hold the same characters.
pub fn same_text(a: &str, b: &str) -> (same: bool)
    ensures
        same == (a@ == b@),
{
    let n: usize = a.unicode_len();
    if b.unicode_len() != n {
        return false;
    }
    let mut i: usize = 0;
    while i < n
        invariant
            i <= n,
            n == a@.len(),
            n == b@.len(),
            forall|j: int| 0 <= j < i ==> a@[j] == b@[j],
        decreases n - i,
    {
        if a.get_char(i) != b.get_char(i) {
            return false;
        }
        i = i + 1;
    }
    assert(a@ =~= b@);
    true
}

/// The state with the given wire name. The match is on the whole name and
/// on its exact spelling.
pub fn state_from_wire_name(name: &str) -> (state: Option<State>)
    ensures
        state == state_named(name@),
{
    if same_text(name, "UNKNOWN") {
        Some(State::Unknown)
    } else if same_text(name, "QUEUED") {
        Some(State::Queued)
    } else if same_text(name, "INITIALIZING") {
        Some(State::Initializing)
    } else if same_text(name, "RUNNING") {
        Some(State::Running)
    } else if same_text(name, "PAUSED") {
        Some(State::Paused)
    } else if same_text(name, "COMPLETE") {
        Some(State::Complete)
    } else if same_text(name, "EXECUTOR_ERROR") {
        Some(State::ExecutorError)
    } else if same_text(name, "SYSTEM_ERROR") {
        Some(State::SystemError)
    } else if same_text(name, "CANCELED") {
        Some(State::Canceled)
    } else if same_text(name, "CANCELING") {
        Some(State::Canceling)
    } else if same_text(name, "PREEMPTED") {
        Some(State::Preempted)
    } else {
        None
    }
}

/// The label of an absent state is the text `None`, every state has one of
/// the eleven fixed labels, and no two of the twelve labels are equal: a label
/// tells which state, or that none, it was made from.
pub proof fn lemma_labels_distinct(a: Option<State>, b: Option<State>)
    ensures
        label_of(None) =~= seq!['N', 'o', 'n', 'e'],
        label_of(a) == label_of(b) ==> a == b,
        a is Some ==> label_of(a) != label_of(None),
        0 < label_of(a).len() <= 14,
{
    reveal_labels();
}

/// No two states share a wire name, and the state found under a state's wire
/// name is that state.
pub proof fn lemma_wire_names_distinct(a: State, b: State)
    ensures
        wire_name(a) == wire_name(b) ==> a == b,
        state_named(wire_name(a)) == Some(a),
{
    reveal_wire_names();
}

} // verus!
