use tes_cli::dispatch::{
    advance, connect_or_fail, create_command, format_status, plan, remember, render,
    reply_answers, Action, CliError, Command, Event, Pending, Reply, Request, Stage,
};
use tes_cli::state::State;
use tes_cli::task::{Executor, Task, TaskFile, TaskList};

fn hello_task() -> Task {
    Task {
        id: None,
        state: None,
        name: None,
        inputs: Vec::new(),
        outputs: Vec::new(),
        executors: vec![Executor {
            image: "alpine".to_string(),
            command: vec!["cat".to_string(), "/inputs/hello.txt".to_string()],
            stdout: None,
            stderr: None,
        }],
    }
}

fn run_to_call(command: Command) -> (Stage, Request) {
    let (stage, action) = advance(Stage::Idle, Event::Invoked { command });
    assert_eq!(action, Action::Resolve);
    let (stage, action) =
        advance(stage, Event::EndpointResolved { address: "http://localhost:8000".to_string() });
    assert_eq!(action, Action::Connect { base_url: "http://localhost:8000/".to_string() });
    let (stage, action) = advance(stage, Event::HandleReady);
    match action {
        Action::Call { request } => (stage, request),
        other => panic!("no call: {:?}", other),
    }
}

#[test]
fn create_prints_the_new_identifier() {
    let (stage, request) = run_to_call(Command::Create { document: Some(hello_task()) });
    assert_eq!(request, Request::CreateTask { task: hello_task() });
    assert_eq!(stage, Stage::Calling { pending: Pending::Create });
    let reply = Reply::Created { id: "cqgk5lj93m0311u6p530".to_string() };
    let (stage, action) = advance(stage, Event::Replied { reply });
    assert_eq!(stage, Stage::Done);
    match action {
        Action::Print { text } => {
            assert!(!text.is_empty());
            assert_eq!(text, "cqgk5lj93m0311u6p530");
        }
        other => panic!("nothing printed: {:?}", other),
    }
}

#[test]
fn create_with_full_document_is_forwarded_unchanged() {
    let mut task = hello_task();
    task.name = Some("Hello world".to_string());
    task.inputs.push(TaskFile {
        url: "s3://funnel-bucket/hello.txt".to_string(),
        path: "/inputs/hello.txt".to_string(),
    });
    task.outputs.push(TaskFile {
        url: "s3://funnel-bucket/output.txt".to_string(),
        path: "/outputs/stdout".to_string(),
    });
    task.executors[0].stdout = Some("/outputs/stdout".to_string());
    let (_, request) = run_to_call(Command::Create { document: Some(task.clone()) });
    assert_eq!(request, Request::CreateTask { task });
}

#[test]
fn create_without_document_is_refused() {
    let (stage, action) =
        advance(Stage::Idle, Event::Invoked { command: Command::Create { document: None } });
    assert_eq!(stage, Stage::Done);
    assert_eq!(action, Action::Report { error: CliError::DocumentParse });
}

#[test]
fn create_without_executor_is_refused() {
    let mut task = hello_task();
    task.executors.clear();
    assert!(!task.is_submittable());
    assert!(hello_task().is_submittable());
    assert_eq!(plan(Command::Create { document: Some(task) }), Err(CliError::DocumentParse));
}

#[test]
fn get_then_status_then_cancel() {
    let id = "cqgk5lj93m0311u6p530".to_string();
    let (stage, request) = run_to_call(Command::Get { id: id.clone(), view: "BASIC".to_string() });
    assert_eq!(request, Request::GetTask { id: id.clone(), view: "BASIC".to_string() });
    let reply = Reply::Fetched { representation: format!("Task {{ id: {:?} }}", id) };
    let (stage, action) = advance(stage, Event::Replied { reply });
    assert_eq!(stage, Stage::Done);
    assert_eq!(
        action,
        Action::Print { text: "Task { id: \"cqgk5lj93m0311u6p530\" }".to_string() }
    );

    let (stage, request) = run_to_call(Command::Status { id: id.clone() });
    assert_eq!(request, Request::GetStatus { id: id.clone() });
    assert_eq!(stage, Stage::Calling { pending: Pending::Status { id: id.clone() } });
    let (_, action) =
        advance(stage, Event::Replied { reply: Reply::Status { state: Some(State::Queued) } });
    assert_eq!(
        action,
        Action::Print { text: "TASKID: cqgk5lj93m0311u6p530\nSTATUS: Queued".to_string() }
    );

    let (stage, request) = run_to_call(Command::Cancel { id: id.clone() });
    assert_eq!(request, Request::CancelTask { id: id.clone() });
    let reply = Reply::Canceled { acknowledgment: "{}".to_string() };
    let (stage, action) = advance(stage, Event::Replied { reply });
    assert_eq!(stage, Stage::Done);
    assert_eq!(action, Action::Print { text: "{}".to_string() });

    let (stage, _) = run_to_call(Command::Status { id });
    let (_, action) =
        advance(stage, Event::Replied { reply: Reply::Status { state: Some(State::Canceling) } });
    assert_eq!(
        action,
        Action::Print { text: "TASKID: cqgk5lj93m0311u6p530\nSTATUS: Canceling".to_string() }
    );
}

#[test]
fn list_renders_the_table() {
    let command = Command::List {
        name_prefix: None,
        state: None,
        page_size: None,
        page_token: None,
        view: Some("FULL".to_string()),
    };
    let (stage, request) = run_to_call(command);
    match request {
        Request::ListTasks { query } => {
            assert_eq!(query.view, Some("FULL".to_string()));
            assert_eq!(query.state, None);
        }
        other => panic!("not a list call: {:?}", other),
    }
    let mut listed = hello_task();
    listed.id = Some("t-1".to_string());
    listed.state = Some(State::Complete);
    let tasks = TaskList { tasks: vec![listed], next_page_token: None };
    let (stage, action) = advance(stage, Event::Replied { reply: Reply::Listed { tasks } });
    assert_eq!(stage, Stage::Done);
    assert_eq!(
        action,
        Action::Print {
            text: "TASK ID                   State          \nt-1                       Complete       \n"
                .to_string()
        }
    );
}

#[test]
fn list_with_bad_page_size_makes_no_call() {
    let command = Command::List {
        name_prefix: None,
        state: None,
        page_size: Some("abc".to_string()),
        page_token: None,
        view: None,
    };
    let (stage, action) = advance(Stage::Idle, Event::Invoked { command });
    assert_eq!(stage, Stage::Done);
    assert_eq!(action, Action::Report { error: CliError::InvalidPagination });
    let (stage, action) = advance(stage, Event::HandleReady);
    assert_eq!(stage, Stage::Done);
    assert_eq!(action, Action::Ignore);
}

#[test]
fn list_with_bad_state_is_invalid_filter() {
    let command = Command::List {
        name_prefix: None,
        state: Some("RUNNING".to_string()),
        page_size: None,
        page_token: None,
        view: None,
    };
    assert_eq!(plan(command), Err(CliError::InvalidFilter));
}

#[test]
fn unusable_address_ends_the_invocation() {
    for address in ["", "not a url", "localhost:8000/path with space", "/relative/path", "http://"] {
        let (stage, action) =
            advance(Stage::Idle, Event::Invoked { command: Command::Status { id: "x".to_string() } });
        assert_eq!(action, Action::Resolve);
        let (stage, action) =
            advance(stage, Event::EndpointResolved { address: address.to_string() });
        if address == "localhost:8000/path with space" {
            assert!(matches!(action, Action::Connect { .. }));
            continue;
        }
        assert_eq!(stage, Stage::Done, "{:?}", address);
        assert_eq!(action, Action::Report { error: CliError::EndpointResolution });
    }
}

#[test]
fn address_is_connected_in_normal_form() {
    let request = Request::GetStatus { id: "x".to_string() };
    let (_, action) = advance(
        Stage::Resolving { request },
        Event::EndpointResolved { address: "HTTP://LocalHost:8000/a/../b".to_string() },
    );
    assert_eq!(action, Action::Connect { base_url: "http://localhost:8000/b".to_string() });
}

#[test]
fn connect_or_fail_by_parsed_address() {
    let request = Request::CancelTask { id: "x".to_string() };
    assert_eq!(
        connect_or_fail(request.clone(), Some("http://h/".to_string())),
        (
            Stage::Connecting { request: request.clone() },
            Action::Connect { base_url: "http://h/".to_string() }
        )
    );
    assert_eq!(
        connect_or_fail(request, None),
        (Stage::Done, Action::Report { error: CliError::EndpointResolution })
    );
}

#[test]
fn failed_handle_and_failed_call() {
    let request = Request::GetStatus { id: "x".to_string() };
    let (stage, action) = advance(
        Stage::Connecting { request },
        Event::HandleFailed { message: "refused".to_string() },
    );
    assert_eq!(stage, Stage::Done);
    assert_eq!(action, Action::Report { error: CliError::EndpointResolution });

    let (stage, action) = advance(
        Stage::Calling { pending: Pending::List },
        Event::CallFailed { message: "500 Internal Server Error".to_string() },
    );
    assert_eq!(stage, Stage::Done);
    assert_eq!(
        action,
        Action::Report {
            error: CliError::BackendCall { message: "500 Internal Server Error".to_string() }
        }
    );
}

#[test]
fn events_out_of_turn_are_ignored() {
    let (stage, action) = advance(Stage::Idle, Event::HandleReady);
    assert_eq!((stage, action), (Stage::Idle, Action::Ignore));

    let request = Request::GetStatus { id: "x".to_string() };
    let (stage, action) = advance(Stage::Resolving { request: request.clone() }, Event::HandleReady);
    assert_eq!((stage, action), (Stage::Resolving { request: request.clone() }, Action::Ignore));

    let (stage, action) = advance(
        Stage::Connecting { request: request.clone() },
        Event::CallFailed { message: "m".to_string() },
    );
    assert_eq!((stage, action), (Stage::Connecting { request }, Action::Ignore));

    let pending = Pending::Status { id: "x".to_string() };
    let reply = Reply::Created { id: "y".to_string() };
    let (stage, action) = advance(Stage::Calling { pending: pending.clone() }, Event::Replied { reply });
    assert_eq!((stage, action), (Stage::Calling { pending }, Action::Ignore));

    let command = Command::Cancel { id: "x".to_string() };
    let (stage, action) = advance(Stage::Done, Event::Invoked { command });
    assert_eq!((stage, action), (Stage::Done, Action::Ignore));
}

#[test]
fn status_lines() {
    assert_eq!(format_status("abc", &Some(State::Running)), "TASKID: abc\nSTATUS: Running");
    assert_eq!(format_status("", &None), "TASKID: \nSTATUS: None");
    assert_eq!(
        format_status("abc", &Some(State::SystemError)),
        "TASKID: abc\nSTATUS: System Error"
    );
}

#[test]
fn render_by_kind() {
    let status = Pending::Status { id: "abc".to_string() };
    assert!(reply_answers(&status, &Reply::Status { state: None }));
    assert!(!reply_answers(&status, &Reply::Canceled { acknowledgment: String::new() }));
    assert!(!reply_answers(&Pending::Create, &Reply::Status { state: None }));
    assert_eq!(
        render(&status, Reply::Status { state: None }),
        Some("TASKID: abc\nSTATUS: None".to_string())
    );
    assert_eq!(render(&Pending::Get, Reply::Status { state: None }), None);
    assert_eq!(render(&Pending::Cancel, Reply::Created { id: "a".to_string() }), None);
    assert_eq!(
        render(
            &Pending::List,
            Reply::Listed { tasks: TaskList { tasks: Vec::new(), next_page_token: None } }
        ),
        Some("TASK ID                   State          \n".to_string())
    );
}

#[test]
fn remember_keeps_the_status_identifier() {
    assert_eq!(
        remember(&Request::GetStatus { id: "abc".to_string() }),
        Pending::Status { id: "abc".to_string() }
    );
    assert_eq!(remember(&Request::CancelTask { id: "abc".to_string() }), Pending::Cancel);
    assert_eq!(remember(&Request::CreateTask { task: hello_task() }), Pending::Create);
    assert_eq!(
        remember(&Request::GetTask { id: "a".to_string(), view: "FULL".to_string() }),
        Pending::Get
    );
}

#[test]
fn create_from_document_text() {
    let text = r#"{"executors":[{"image":"alpine","command":["cat","/inputs/hello.txt"]}]}"#;
    let command = create_command(text);
    assert_eq!(command, Command::Create { document: Some(hello_task()) });
    let (stage, request) = run_to_call(command);
    assert_eq!(request, Request::CreateTask { task: hello_task() });
    let reply = Reply::Created { id: "cqgk5lj93m0311u6p530".to_string() };
    let (_, action) = advance(stage, Event::Replied { reply });
    match action {
        Action::Print { text } => assert!(!text.is_empty()),
        other => panic!("nothing printed: {:?}", other),
    }
}

#[test]
fn create_from_malformed_text_makes_no_call() {
    for text in ["", "./tests/sample.tes", "{", "[]", "{\"name\":\"x\"}", "{\"executors\":[]}"] {
        let command = create_command(text);
        assert_eq!(command, Command::Create { document: None }, "{:?}", text);
        let (stage, action) = advance(Stage::Idle, Event::Invoked { command });
        assert_eq!(stage, Stage::Done);
        assert_eq!(action, Action::Report { error: CliError::DocumentParse });
    }
}
