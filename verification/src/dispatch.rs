//! The decisions of the command dispatcher. One invocation runs one command:
//! it prepares the request, resolves the backend's address, connects, makes
//! one call and prints what came back. The waiting is the caller's part; what
//! to do next is decided here, as a step from a stage and an event to the
//! next stage and an action.

use vstd::prelude::*;
use vstd::string::*;
use crate::document::{parse_task_document, task_described};
use crate::format::{format_tasks_response, table_of};
use crate::query::{
    build_list_query, decoded_filter, list_query_of, page_size_of, ListQuery, QueryError,
};
use crate::state::{label_of, tes_state_to_str, State};
use crate::task::{text_of, Task, TaskList};

verus! {

/// A command as the command line gave it.
#[derive(Clone, Debug, PartialEq, Eq)]
pub enum Command {
    /// Submit a task. The document is absent where its text did not decode
    /// into a task.
    Create { document: Option<Task> },
    /// List tasks; every input is raw text and may be absent.
    List {
        name_prefix: Option<String>,
        state: Option<String>,
        page_size: Option<String>,
        page_token: Option<String>,
        view: Option<String>,
    },
    /// Fetch one task at a level of detail.
    Get { id: String, view: String },
    /// Fetch the state of one task.
    Status { id: String },
    /// Ask for one task to be cancelled.
    Cancel { id: String },
}

/// The one backend call that a command leads to.
#[derive(Clone, Debug, PartialEq, Eq)]
pub enum Request {
    CreateTask { task: Task },
    ListTasks { query: ListQuery },
    GetTask { id: String, view: String },
    GetStatus { id: String },
    CancelTask { id: String },
}

/// What the backend answered to a call.
#[derive(Clone, Debug, PartialEq, Eq)]
pub enum Reply {
    /// The identifier that the backend assigned to the new task.
    Created { id: String },
    /// The tasks of one list call.
    Listed { tasks: TaskList },
    /// The task that was asked for, as text.
    Fetched { representation: String },
    /// The state of the task that was asked for.
    Status { state: Option<State> },
    /// The backend's acknowledgment of a cancellation, as text.
    Canceled { acknowledgment: String },
}

/// Why an invocation ended without a result.
#[derive(Clone, Debug, PartialEq, Eq)]
pub enum CliError {
    /// The task document is malformed or names no executor.
    DocumentParse,
    /// The state filter of a list command names no state.
    InvalidFilter,
    /// The page size of a list command is no usable number.
    InvalidPagination,
    /// No backend address was found, or no connection to it could be set up.
    EndpointResolution,
    /// The backend call failed; the message is the backend's.
    BackendCall { message: String },
}

/// What a call in flight is remembered by, to print its reply.
#[derive(Clone, Debug, PartialEq, Eq)]
pub enum Pending {
    Create,
    List,
    Get,
    Status { id: String },
    Cancel,
}

/// How far an invocation has come.
#[derive(Clone, Debug, PartialEq, Eq)]
pub enum Stage {
    /// Nothing has happened yet.
    Idle,
    /// The request is ready; the backend's address is being resolved.
    Resolving { request: Request },
    /// The address is known; the connection is being set up.
    Connecting { request: Request },
    /// The call has been made; its reply is awaited.
    Calling { pending: Pending },
    /// The invocation has printed its result or reported its failure.
    Done,
}

/// What reached the dispatcher.
#[derive(Clone, Debug, PartialEq, Eq)]
pub enum Event {
    Invoked { command: Command },
    EndpointResolved { address: String },
    HandleReady,
    HandleFailed { message: String },
    Replied { reply: Reply },
    CallFailed { message: String },
}

/// What the caller is to do next.
#[derive(Clone, Debug, PartialEq, Eq)]
pub enum Action {
    /// Resolve the backend's address.
    Resolve,
    /// Set up the connection to this base address.
    Connect { base_url: String },
    /// Make the backend call.
    Call { request: Request },
    /// Print the text and end with success.
    Print { text: String },
    /// Report the error and end with failure.
    Report { error: CliError },
    /// The event does not belong to the stage: nothing is to be done.
    Ignore,
}

/// The normal form in which the URL parser writes an absolute URL, or
/// nothing where the text is no absolute URL.
pub uninterp spec fn url_serialization(text: Seq<char>) -> Option<Seq<char>>;

/// Calls `url::Url::parse` and takes the parsed URL's serialization out of
/// it. The parser accepts absolute URLs only and returns an error for any
/// other text, which is returned here as `None`. The result depends on the
/// text alone and is known to the contracts as `url_serialization`.
#[verifier::external_body]
fn parse_url(text: &str) -> (url: Option<String>)
    ensures
        text_of(url) == url_serialization(text@),
{
    url::Url::parse(text).ok().map(String::from)
}

/// The create command for the text of a task document: it carries the task
/// that the text describes, or no document where it describes none.
pub fn create_command(text: &str) -> (command: Command)
    ensures
        command matches Command::Create { document } && match document {
            Some(task) => task_described(text@) == Some(task@) && task.submittable(),
            None => task_described(text@) is None,
        },
{
    Command::Create { document: parse_task_document(text) }
}

/// The error of the dispatcher that stands for an error of the query builder.
pub open spec fn query_error(error: QueryError) -> CliError {
    match error {
        QueryError::InvalidFilter => CliError::InvalidFilter,
        QueryError::InvalidPagination => CliError::InvalidPagination,
    }
}

/// The request of a command whose state filter, if it has one, has been
/// decoded to `state_name`. A create command needs a document with at least
/// one executor; a list command needs a query that can be built; the other
/// three carry their arguments over.
pub open spec fn request_of(command: Command, state_name: Option<Option<Seq<char>>>) -> Result<
    Request,
    CliError,
> {
    match command {
        Command::Create { document } => match document {
            Some(task) => if task.submittable() {
                Ok(Request::CreateTask { task })
            } else {
                Err(CliError::DocumentParse)
            },
            None => Err(CliError::DocumentParse),
        },
        Command::List { name_prefix, state, page_size, page_token, view } => match list_query_of(
            name_prefix,
            state_name,
            text_of(page_size),
            page_token,
            view,
        ) {
            Ok(query) => Ok(Request::ListTasks { query }),
            Err(error) => Err(query_error(error)),
        },
        Command::Get { id, view } => Ok(Request::GetTask { id, view }),
        Command::Status { id } => Ok(Request::GetStatus { id }),
        Command::Cancel { id } => Ok(Request::CancelTask { id }),
    }
}

/// The decoded state filter of a command: absent for every command but a
/// list command with a state filter.
pub open spec fn command_filter(command: Command) -> Option<Option<Seq<char>>> {
    match command {
        Command::List { state, .. } => decoded_filter(state),
        _ => None,
    }
}

/// Prepares the request of a command, without any call to the backend.
pub fn plan(command: Command) -> (request: Result<Request, CliError>)
    ensures
        request == request_of(command, command_filter(command)),
{
    match command {
        Command::Create { document } => match document {
            Some(task) => {
                if task.is_submittable() {
                    Ok(Request::CreateTask { task })
                } else {
                    Err(CliError::DocumentParse)
                }
            },
            None => Err(CliError::DocumentParse),
        },
        Command::List { name_prefix, state, page_size, page_token, view } => {
            match build_list_query(name_prefix, state, page_size, page_token, view) {
                Ok(query) => Ok(Request::ListTasks { query }),
                Err(QueryError::InvalidFilter) => Err(CliError::InvalidFilter),
                Err(QueryError::InvalidPagination) => Err(CliError::InvalidPagination),
            }
        },
        Command::Get { id, view } => Ok(Request::GetTask { id, view }),
        Command::Status { id } => Ok(Request::GetStatus { id }),
        Command::Cancel { id } => Ok(Request::CancelTask { id }),
    }
}

/// What a request is remembered by while its call is in flight.
pub open spec fn pending_of(request: Request) -> Pending {
    match request {
        Request::CreateTask { .. } => Pending::Create,
        Request::ListTasks { .. } => Pending::List,
        Request::GetTask { .. } => Pending::Get,
        Request::GetStatus { id } => Pending::Status { id },
        Request::CancelTask { .. } => Pending::Cancel,
    }
}

/// Whether the reply is of the kind that the call in flight asks for.
pub open spec fn answers(pending: Pending, reply: Reply) -> bool {
    match (pending, reply) {
        (Pending::Create, Reply::Created { .. }) => true,
        (Pending::List, Reply::Listed { .. }) => true,
        (Pending::Get, Reply::Fetched { .. }) => true,
        (Pending::Status { .. }, Reply::Status { .. }) => true,
        (Pending::Cancel, Reply::Canceled { .. }) => true,
        _ => false,
    }
}

/// The two lines printed for a status: the identifier and the state's label.
pub open spec fn status_text(id: Seq<char>, state: Option<State>) -> Seq<char> {
    "TASKID: "@ + id + "\n"@ + "STATUS: "@ + label_of(state)
}

/// The text printed for a reply that answers the call in flight: the new
/// identifier, the table of the listed tasks, the fetched task's text, the
/// status lines, or the acknowledgment.
pub open spec fn output_of(pending: Pending, reply: Reply) -> Seq<char> {
    match reply {
        Reply::Created { id } => id@,
        Reply::Listed { tasks } => table_of(tasks.tasks@),
        Reply::Fetched { representation } => representation@,
        Reply::Status { state } => match pending {
            Pending::Status { id } => status_text(id@, state),
            _ => Seq::empty(),
        },
        Reply::Canceled { acknowledgment } => acknowledgment@,
    }
}

/// Renders the two status lines.
pub fn format_status(id: &str, state: &Option<State>) -> (text: String)
    ensures
        text@ == status_text(id@, *state),
{
    let mut text: String = String::new();
    text.append("TASKID: ");
    text.append(id);
    text.append("\n");
    text.append("STATUS: ");
    text.append(tes_state_to_str(state));
    proof {
        assert(text@ =~= status_text(id@, *state));
    }
    text
}

/// Tells whether the reply is of the kind that the call in flight asks for.
pub fn reply_answers(pending: &Pending, reply: &Reply) -> (ok: bool)
    ensures
        ok == answers(*pending, *reply),
{
    match pending {
        Pending::Create => match reply {
            Reply::Created { .. } => true,
            _ => false,
        },
        Pending::List => match reply {
            Reply::Listed { .. } => true,
            _ => false,
        },
        Pending::Get => match reply {
            Reply::Fetched { .. } => true,
            _ => false,
        },
        Pending::Status { .. } => match reply {
            Reply::Status { .. } => true,
            _ => false,
        },
        Pending::Cancel => match reply {
            Reply::Canceled { .. } => true,
            _ => false,
        },
    }
}

/// Renders the reply to the call in flight; nothing for a reply of another
/// kind than the call asks for.
pub fn render(pending: &Pending, reply: Reply) -> (text: Option<String>)
    ensures
        text is Some == answers(*pending, reply),
        text matches Some(t) ==> t@ == output_of(*pending, reply),
{
    if !reply_answers(pending, &reply) {
        return None;
    }
    match reply {
        Reply::Created { id } => Some(id),
        Reply::Listed { tasks } => Some(format_tasks_response(&tasks)),
        Reply::Fetched { representation } => Some(representation),
        Reply::Status { state } => match pending {
            Pending::Status { id } => Some(format_status(id.as_str(), &state)),
            _ => None,
        },
        Reply::Canceled { acknowledgment } => Some(acknowledgment),
    }
}

/// What is remembered of a request while its call is in flight.
pub fn remember(request: &Request) -> (pending: Pending)
    ensures
        pending == pending_of(*request),
{
    match request {
        Request::CreateTask { .. } => Pending::Create,
        Request::ListTasks { .. } => Pending::List,
        Request::GetTask { .. } => Pending::Get,
        Request::GetStatus { id } => Pending::Status { id: id.clone() },
        Request::CancelTask { .. } => Pending::Cancel,
    }
}

/// What follows once the backend's address has been resolved and parsed:
/// with a URL, the connection is set up to its normal form; without one, the
/// invocation ends with `EndpointResolution` and no call is made.
pub open spec fn after_resolution(
    request: Request,
    url: Option<Seq<char>>,
    next: Stage,
    action: Action,
) -> bool {
    match url {
        Some(normal) => {
            &&& next == Stage::Connecting { request }
            &&& action matches Action::Connect { base_url }
            &&& base_url@ == normal
        },
        None => {
            &&& next == Stage::Done
            &&& action == Action::Report { error: CliError::EndpointResolution }
        },
    }
}

/// Decides what follows the resolution of the backend's address, given what
/// the URL parser made of it.
pub fn connect_or_fail(request: Request, url: Option<String>) -> (step: (Stage, Action))
    ensures
        after_resolution(request, text_of(url), step.0, step.1),
{
    match url {
        Some(base_url) => (Stage::Connecting { request }, Action::Connect { base_url }),
        None => (Stage::Done, Action::Report { error: CliError::EndpointResolution }),
    }
}

/// The step relation of the dispatcher. Each stage takes the events listed
/// here; any other event is ignored and leaves the stage as it is.
///
/// - `Idle`, a command: with a request, resolve the address; with an error,
///   report it and end. No call is made for a command that is refused.
/// - `Resolving`, the address: see `after_resolution`.
/// - `Connecting`, the connection stands: make the call. It failed: end with
///   `EndpointResolution`.
/// - `Calling`, a reply of the kind asked for: print its text and end. The
///   call failed: end with `BackendCall` and the backend's message.
pub open spec fn steps(stage: Stage, event: Event, next: Stage, action: Action) -> bool {
    match (stage, event) {
        (Stage::Idle, Event::Invoked { command }) => match request_of(
            command,
            command_filter(command),
        ) {
            Ok(request) => next == Stage::Resolving { request } && action == Action::Resolve,
            Err(error) => next == Stage::Done && action == Action::Report { error },
        },
        (Stage::Resolving { request }, Event::EndpointResolved { address }) => after_resolution(
            request,
            url_serialization(address@),
            next,
            action,
        ),
        (Stage::Connecting { request }, Event::HandleReady) => {
            &&& next == Stage::Calling { pending: pending_of(request) }
            &&& action == Action::Call { request }
        },
        (Stage::Connecting { request }, Event::HandleFailed { message }) => {
            &&& next == Stage::Done
            &&& action == Action::Report { error: CliError::EndpointResolution }
        },
        (Stage::Calling { pending }, Event::Replied { reply }) => if answers(pending, reply) {
            &&& next == Stage::Done
            &&& action matches Action::Print { text }
            &&& text@ == output_of(pending, reply)
        } else {
            next == stage && action == Action::Ignore
        },
        (Stage::Calling { pending }, Event::CallFailed { message }) => {
            &&& next == Stage::Done
            &&& action == Action::Report { error: CliError::BackendCall { message } }
        },
        _ => next == stage && action == Action::Ignore,
    }
}

/// Takes one step: from the stage and the event to the next stage and the
/// action that the caller is to perform.
pub fn advance(stage: Stage, event: Event) -> (step: (Stage, Action))
    ensures
        steps(stage, event, step.0, step.1),
{
    match stage {
        Stage::Idle => match event {
            Event::Invoked { command } => match plan(command) {
                Ok(request) => (Stage::Resolving { request }, Action::Resolve),
                Err(error) => (Stage::Done, Action::Report { error }),
            },
            _ => (Stage::Idle, Action::Ignore),
        },
        Stage::Resolving { request } => match event {
            Event::EndpointResolved { address } => {
                let url: Option<String> = parse_url(address.as_str());
                connect_or_fail(request, url)
            },
            _ => (Stage::Resolving { request }, Action::Ignore),
        },
        Stage::Connecting { request } => match event {
            Event::HandleReady => {
                let pending: Pending = remember(&request);
                (Stage::Calling { pending }, Action::Call { request })
            },
            Event::HandleFailed { .. } => (
                Stage::Done,
                Action::Report { error: CliError::EndpointResolution },
            ),
            _ => (Stage::Connecting { request }, Action::Ignore),
        },
        Stage::Calling { pending } => match event {
            Event::Replied { reply } => match render(&pending, reply) {
                Some(text) => (Stage::Done, Action::Print { text }),
                None => (Stage::Calling { pending }, Action::Ignore),
            },
            Event::CallFailed { message } => (
                Stage::Done,
                Action::Report { error: CliError::BackendCall { message } },
            ),
            _ => (Stage::Calling { pending }, Action::Ignore),
        },
        Stage::Done => (Stage::Done, Action::Ignore),
    }
}

/// A call is made only from `Connecting`, on `HandleReady`, and it is the
/// call of the request that the command was planned into: no step out of any
/// other stage or on any other event asks for a backend call.
pub proof fn lemma_call_needs_connection(stage: Stage, event: Event, next: Stage, action: Action)
    requires
        steps(stage, event, next, action),
        action is Call,
    ensures
        stage is Connecting,
        event is HandleReady,
        action == (Action::Call { request: stage->Connecting_request }),
{
}

/// Once done, an invocation stays done and asks for nothing more.
pub proof fn lemma_done_is_final(event: Event, next: Stage, action: Action)
    requires
        steps(Stage::Done, event, next, action),
    ensures
        next == Stage::Done,
        action == Action::Ignore,
{
}

/// A list command without a state filter whose page size is no usable
/// number is refused with `InvalidPagination` in the first step, which ends
/// the invocation: nothing is resolved and no call is made.
pub proof fn lemma_bad_page_size_ends(command: Command, next: Stage, action: Action)
    requires
        command matches Command::List { state, page_size, .. } && state is None
            && page_size is Some && page_size_of(page_size->0@) is None,
        steps(Stage::Idle, (Event::Invoked { command }), next, action),
    ensures
        next == Stage::Done,
        action == (Action::Report { error: CliError::InvalidPagination }),
{
}

/// A create command without a document, or with a document that names no
/// executor, is refused with `DocumentParse` in the first step.
pub proof fn lemma_bad_document_ends(command: Command, next: Stage, action: Action)
    requires
        command matches Command::Create { document } && (document is None
            || !document->0.submittable()),
        steps(Stage::Idle, (Event::Invoked { command }), next, action),
    ensures
        next == Stage::Done,
        action == (Action::Report { error: CliError::DocumentParse }),
{
}

} // verus!
