//! Tasks as the client holds them: plain values, read and never changed.

use vstd::prelude::*;
use crate::state::State;

verus! {

/// A file that is copied into the task's container before it starts, or out
/// of it after it ends: where it lies outside, and where in the container.
#[derive(Clone, Debug, PartialEq, Eq)]
pub struct TaskFile {
    pub url: String,
    pub path: String,
}

/// One command to run in a container image.
#[derive(Clone, Debug, PartialEq, Eq)]
pub struct Executor {
    pub image: String,
    pub command: Vec<String>,
    pub stdout: Option<String>,
    pub stderr: Option<String>,
}

/// A unit of remote work. The identifier is absent until the backend has
/// assigned one; the state is absent where the backend reported none.
#[derive(Clone, Debug, PartialEq, Eq)]
pub struct Task {
    pub id: Option<String>,
    pub state: Option<State>,
    pub name: Option<String>,
    pub inputs: Vec<TaskFile>,
    pub outputs: Vec<TaskFile>,
    pub executors: Vec<Executor>,
}

/// What one list call returned: the tasks in the backend's order, and the
/// cursor of the next page if there is one.
#[derive(Clone, Debug, PartialEq, Eq)]
pub struct TaskList {
    pub tasks: Vec<Task>,
    pub next_page_token: Option<String>,
}

/// The characters of an optional text.
pub open spec fn text_of(text: Option<String>) -> Option<Seq<char>> {
    match text {
        Some(t) => Some(t@),
        None => None,
    }
}

/// The characters of each text of a list.
pub open spec fn texts(list: Seq<String>) -> Seq<Seq<char>> {
    Seq::new(list.len(), |i: int| list[i]@)
}

/// A file binding as plain values.
pub struct TaskFileView {
    pub url: Seq<char>,
    pub path: Seq<char>,
}

impl View for TaskFile {
    type V = TaskFileView;

    open spec fn view(&self) -> TaskFileView {
        TaskFileView { url: self.url@, path: self.path@ }
    }
}

/// The plain values of each file binding of a list.
pub open spec fn file_views(list: Seq<TaskFile>) -> Seq<TaskFileView> {
    Seq::new(list.len(), |i: int| list[i]@)
}

/// An executor as plain values.
pub struct ExecutorView {
    pub image: Seq<char>,
    pub command: Seq<Seq<char>>,
    pub stdout: Option<Seq<char>>,
    pub stderr: Option<Seq<char>>,
}

impl View for Executor {
    type V = ExecutorView;

    open spec fn view(&self) -> ExecutorView {
        ExecutorView {
            image: self.image@,
            command: texts(self.command@),
            stdout: text_of(self.stdout),
            stderr: text_of(self.stderr),
        }
    }
}

/// The plain values of each executor of a list.
pub open spec fn executor_views(list: Seq<Executor>) -> Seq<ExecutorView> {
    Seq::new(list.len(), |i: int| list[i]@)
}

/// A task as plain values.
pub struct TaskView {
    pub id: Option<Seq<char>>,
    pub state: Option<State>,
    pub name: Option<Seq<char>>,
    pub inputs: Seq<TaskFileView>,
    pub outputs: Seq<TaskFileView>,
    pub executors: Seq<ExecutorView>,
}

impl View for Task {
    type V = TaskView;

    open spec fn view(&self) -> TaskView {
        TaskView {
            id: text_of(self.id),
            state: self.state,
            name: text_of(self.name),
            inputs: file_views(self.inputs@),
            outputs: file_views(self.outputs@),
            executors: executor_views(self.executors@),
        }
    }
}

impl Task {
    /// A task can be submitted only with at least one executor.
    pub open spec fn submittable(&self) -> bool {
        self.executors@.len() >= 1
    }

    /// Whether the task has what a submission requires.
    pub fn is_submittable(&self) -> (ok: bool)
        ensures
            ok == self.submittable(),
    {
        self.executors.len() >= 1
    }
}

} // verus!
