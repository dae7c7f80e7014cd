//! Task documents: the JSON text that describes a task to submit, decoded
//! into a task. The JSON itself is read by the JSON library; what a document
//! must hold to describe a task is decided here.

use vstd::prelude::*;
use vstd::string::*;
use crate::json::{
    decode_value, is_null, items_of, json_is_null, json_items, json_member, json_text, json_value,
    member, string_of,
};
use crate::task::{
    executor_views, file_views, text_of, texts, Executor, ExecutorView, Task, TaskFile,
    TaskFileView, TaskView,
};

verus! {

/// A member that must be there and be a string.
pub open spec fn required_text_of(object: serde_json::Value, key: Seq<char>) -> Option<Seq<char>> {
    match json_member(object, key) {
        Some(inner) => json_text(inner),
        None => None,
    }
}

/// A member that may be missing or `null`, and is a string otherwise. The
/// outer `None` says that the member is there and is something else.
pub open spec fn optional_text_of(object: serde_json::Value, key: Seq<char>) -> Option<
    Option<Seq<char>>,
> {
    match json_member(object, key) {
        Some(inner) => if json_is_null(inner) {
            Some(None)
        } else {
            match json_text(inner) {
                Some(text) => Some(Some(text)),
                None => None,
            }
        },
        None => Some(None),
    }
}

/// The texts of a list of JSON strings; nothing where an item is no string.
pub open spec fn texts_of(items: Seq<serde_json::Value>) -> Option<Seq<Seq<char>>> {
    if forall|i: int| 0 <= i < items.len() ==> (#[trigger] json_text(items[i])) is Some {
        Some(Seq::new(items.len(), |i: int| json_text(items[i])->0))
    } else {
        None
    }
}

/// A file binding: an object with the strings `url` and `path`.
pub open spec fn file_of(value: serde_json::Value) -> Option<TaskFileView> {
    match (required_text_of(value, "url"@), required_text_of(value, "path"@)) {
        (Some(url), Some(path)) => Some(TaskFileView { url, path }),
        _ => None,
    }
}

/// The file bindings of a list; nothing where an item is none.
pub open spec fn files_of(items: Seq<serde_json::Value>) -> Option<Seq<TaskFileView>> {
    if forall|i: int| 0 <= i < items.len() ==> (#[trigger] file_of(items[i])) is Some {
        Some(Seq::new(items.len(), |i: int| file_of(items[i])->0))
    } else {
        None
    }
}

/// A member that holds file bindings: no bindings where it is missing or
/// `null`; else it must be an array of file bindings.
pub open spec fn optional_files_of(object: serde_json::Value, key: Seq<char>) -> Option<
    Seq<TaskFileView>,
> {
    match json_member(object, key) {
        Some(inner) => if json_is_null(inner) {
            Some(Seq::empty())
        } else {
            match json_items(inner) {
                Some(items) => files_of(items),
                None => None,
            }
        },
        None => Some(Seq::empty()),
    }
}

/// The command of an executor: the member `command`, an array of strings.
pub open spec fn command_of(value: serde_json::Value) -> Option<Seq<Seq<char>>> {
    match json_member(value, "command"@) {
        Some(inner) => match json_items(inner) {
            Some(items) => texts_of(items),
            None => None,
        },
        None => None,
    }
}

/// An executor: an object with the string `image`, the array of strings
/// `command`, and optionally the strings `stdout` and `stderr`.
pub open spec fn executor_of(value: serde_json::Value) -> Option<ExecutorView> {
    match (
        required_text_of(value, "image"@),
        command_of(value),
        optional_text_of(value, "stdout"@),
        optional_text_of(value, "stderr"@),
    ) {
        (Some(image), Some(command), Some(stdout), Some(stderr)) => Some(
            ExecutorView { image, command, stdout, stderr },
        ),
        _ => None,
    }
}

/// The executors of a list; nothing where an item is none.
pub open spec fn executors_of(items: Seq<serde_json::Value>) -> Option<Seq<ExecutorView>> {
    if forall|i: int| 0 <= i < items.len() ==> (#[trigger] executor_of(items[i])) is Some {
        Some(Seq::new(items.len(), |i: int| executor_of(items[i])->0))
    } else {
        None
    }
}

/// The executors of a document: the member `executors`, an array of at least
/// one executor.
pub open spec fn required_executors_of(document: serde_json::Value) -> Option<Seq<ExecutorView>> {
    match json_member(document, "executors"@) {
        Some(inner) => match json_items(inner) {
            Some(items) => if items.len() >= 1 {
                executors_of(items)
            } else {
                None
            },
            None => None,
        },
        None => None,
    }
}

/// The task that a document describes: at least one executor under
/// `executors`; optionally a `name` and file bindings under `inputs` and
/// `outputs`. Other members are not looked at. The task has no identifier
/// and no state yet: both are the backend's to give.
pub open spec fn task_of(document: serde_json::Value) -> Option<TaskView> {
    match (
        required_executors_of(document),
        optional_text_of(document, "name"@),
        optional_files_of(document, "inputs"@),
        optional_files_of(document, "outputs"@),
    ) {
        (Some(executors), Some(name), Some(inputs), Some(outputs)) => Some(
            TaskView { id: None, state: None, name, inputs, outputs, executors },
        ),
        _ => None,
    }
}

/// The task that a document's text describes.
pub open spec fn task_described(text: Seq<char>) -> Option<TaskView> {
    match json_value(text) {
        Some(document) => task_of(document),
        None => None,
    }
}

/// Reads a member that must be a string.
fn required_text(object: &serde_json::Value, key: &str) -> (text: Option<String>)
    ensures
        text_of(text) == required_text_of(*object, key@),
{
    match member(object, key) {
        Some(inner) => match string_of(inner) {
            Some(found) => Some(String::from_str(found)),
            None => None,
        },
        None => None,
    }
}

/// Reads a member that may be missing.
fn optional_text(object: &serde_json::Value, key: &str) -> (text: Option<Option<String>>)
    ensures
        match text {
            Some(found) => optional_text_of(*object, key@) == Some(text_of(found)),
            None => optional_text_of(*object, key@) is None,
        },
{
    match member(object, key) {
        Some(inner) => {
            if is_null(inner) {
                Some(None)
            } else {
                match string_of(inner) {
                    Some(found) => Some(Some(String::from_str(found))),
                    None => None,
                }
            }
        },
        None => Some(None),
    }
}

/// Reads a list of strings.
fn text_list(items: &Vec<serde_json::Value>) -> (list: Option<Vec<String>>)
    ensures
        match list {
            Some(found) => texts_of(items@) == Some(texts(found@)),
            None => texts_of(items@) is None,
        },
{
    let mut list: Vec<String> = Vec::new();
    let mut i: usize = 0;
    while i < items.len()
        invariant
            i <= items@.len(),
            list@.len() == i,
            forall|j: int| 0 <= j < i ==> (#[trigger] json_text(items@[j])) == Some(list@[j]@),
        decreases items@.len() - i,
    {
        match string_of(&items[i]) {
            Some(found) => list.push(String::from_str(found)),
            None => {
                return None;
            },
        }
        i = i + 1;
    }
    proof {
        assert(texts_of(items@)->0 =~= texts(list@));
    }
    Some(list)
}

/// Reads one file binding.
fn file_from(value: &serde_json::Value) -> (file: Option<TaskFile>)
    ensures
        match file {
            Some(found) => file_of(*value) == Some(found@),
            None => file_of(*value) is None,
        },
{
    let url: Option<String> = required_text(value, "url");
    let path: Option<String> = required_text(value, "path");
    match (url, path) {
        (Some(url), Some(path)) => Some(TaskFile { url, path }),
        _ => None,
    }
}

/// Reads a list of file bindings.
fn file_list(items: &Vec<serde_json::Value>) -> (list: Option<Vec<TaskFile>>)
    ensures
        match list {
            Some(found) => files_of(items@) == Some(file_views(found@)),
            None => files_of(items@) is None,
        },
{
    let mut list: Vec<TaskFile> = Vec::new();
    let mut i: usize = 0;
    while i < items.len()
        invariant
            i <= items@.len(),
            list@.len() == i,
            forall|j: int| 0 <= j < i ==> (#[trigger] file_of(items@[j])) == Some(list@[j]@),
        decreases items@.len() - i,
    {
        match file_from(&items[i]) {
            Some(found) => list.push(found),
            None => {
                return None;
            },
        }
        i = i + 1;
    }
    proof {
        assert(files_of(items@)->0 =~= file_views(list@));
    }
    Some(list)
}

/// Reads a member that holds file bindings and may be missing.
fn optional_files(object: &serde_json::Value, key: &str) -> (list: Option<Vec<TaskFile>>)
    ensures
        match list {
            Some(found) => optional_files_of(*object, key@) == Some(file_views(found@)),
            None => optional_files_of(*object, key@) is None,
        },
{
    match member(object, key) {
        Some(inner) => {
            if is_null(inner) {
                let list: Vec<TaskFile> = Vec::new();
                proof {
                    assert(file_views(list@) =~= Seq::<TaskFileView>::empty());
                }
                Some(list)
            } else {
                match items_of(inner) {
                    Some(items) => file_list(items),
                    None => None,
                }
            }
        },
        None => {
            let list: Vec<TaskFile> = Vec::new();
            proof {
                assert(file_views(list@) =~= Seq::<TaskFileView>::empty());
            }
            Some(list)
        },
    }
}

/// Reads the command of an executor.
fn command_from(value: &serde_json::Value) -> (command: Option<Vec<String>>)
    ensures
        match command {
            Some(found) => command_of(*value) == Some(texts(found@)),
            None => command_of(*value) is None,
        },
{
    match member(value, "command") {
        Some(inner) => match items_of(inner) {
            Some(items) => text_list(items),
            None => None,
        },
        None => None,
    }
}

/// Reads one executor.
fn executor_from(value: &serde_json::Value) -> (executor: Option<Executor>)
    ensures
        match executor {
            Some(found) => executor_of(*value) == Some(found@),
            None => executor_of(*value) is None,
        },
{
    let image: Option<String> = required_text(value, "image");
    let command: Option<Vec<String>> = command_from(value);
    let stdout: Option<Option<String>> = optional_text(value, "stdout");
    let stderr: Option<Option<String>> = optional_text(value, "stderr");
    match (image, command, stdout, stderr) {
        (Some(image), Some(command), Some(stdout), Some(stderr)) => Some(
            Executor { image, command, stdout, stderr },
        ),
        _ => None,
    }
}

/// Reads a list of executors.
fn executor_list(items: &Vec<serde_json::Value>) -> (list: Option<Vec<Executor>>)
    ensures
        match list {
            Some(found) => executors_of(items@) == Some(executor_views(found@)) && found@.len()
                == items@.len(),
            None => executors_of(items@) is None,
        },
{
    let mut list: Vec<Executor> = Vec::new();
    let mut i: usize = 0;
    while i < items.len()
        invariant
            i <= items@.len(),
            list@.len() == i,
            forall|j: int| 0 <= j < i ==> (#[trigger] executor_of(items@[j])) == Some(list@[j]@),
        decreases items@.len() - i,
    {
        match executor_from(&items[i]) {
            Some(found) => list.push(found),
            None => {
                return None;
            },
        }
        i = i + 1;
    }
    proof {
        assert(executors_of(items@)->0 =~= executor_views(list@));
    }
    Some(list)
}

/// Reads the executors of a document.
fn required_executors(document: &serde_json::Value) -> (list: Option<Vec<Executor>>)
    ensures
        match list {
            Some(found) => required_executors_of(*document) == Some(executor_views(found@))
                && found@.len() >= 1,
            None => required_executors_of(*document) is None,
        },
{
    match member(document, "executors") {
        Some(inner) => match items_of(inner) {
            Some(items) => {
                if items.len() >= 1 {
                    executor_list(items)
                } else {
                    None
                }
            },
            None => None,
        },
        None => None,
    }
}

/// Decodes a task from a JSON value that has been read already. The task is
/// returned exactly where the value describes one, and holds what the value
/// holds: the executors, the name and the file bindings, in their order.
pub fn task_from_value(document: &serde_json::Value) -> (task: Option<Task>)
    ensures
        match task {
            Some(found) => task_of(*document) == Some(found@) && found.submittable(),
            None => task_of(*document) is None,
        },
{
    let executors: Option<Vec<Executor>> = required_executors(document);
    let name: Option<Option<String>> = optional_text(document, "name");
    let inputs: Option<Vec<TaskFile>> = optional_files(document, "inputs");
    let outputs: Option<Vec<TaskFile>> = optional_files(document, "outputs");
    match (executors, name, inputs, outputs) {
        (Some(executors), Some(name), Some(inputs), Some(outputs)) => Some(
            Task { id: None, state: None, name, inputs, outputs, executors },
        ),
        _ => None,
    }
}

/// Decodes a task from the text of a task document. A text that is no JSON,
/// or whose JSON does not describe a task, gives nothing.
pub fn parse_task_document(text: &str) -> (task: Option<Task>)
    ensures
        match task {
            Some(found) => task_described(text@) == Some(found@) && found.submittable(),
            None => task_described(text@) is None,
        },
{
    match decode_value(text) {
        Some(document) => task_from_value(&document),
        None => None,
    }
}

} // verus!
