use std::path::PathBuf;

use ytdlp_web::error::DownloadError;
use ytdlp_web::extractor::{Command, Invocation, ProcessResult};
use ytdlp_web::handler::{advance, step, Action, DownloadVideoRequest, Event, FetchStage, State};
use ytdlp_web::response::{Body, Reply};
use ytdlp_web::storage::TempMediaFile;

const URL: &str = "https://example.com/watch?v=abc";

fn exited(status: Option<i32>, stdout: &[u8]) -> Invocation {
    Invocation::Exited(ProcessResult {
        exit_status: status,
        stdout: stdout.to_vec(),
        stderr: b"some diagnostics".to_vec(),
    })
}

fn file_a() -> TempMediaFile {
    TempMediaFile::new(PathBuf::from("/tmp"), "67e55044-10b1-426f-9247-bb680e5fe0c8")
}

fn file_b() -> TempMediaFile {
    TempMediaFile::new(PathBuf::from("/tmp"), "0b1f9a6e-5c1d-4e0a-8f3b-2d7c9e4a1b60")
}

fn received() -> State {
    State::new(DownloadVideoRequest::new(URL.to_string()).unwrap())
}

fn run(mut state: State, events: Vec<Event>) -> (State, Vec<Action>) {
    let mut actions = Vec::new();
    for event in events {
        let (next, action) = step(state, event);
        state = next;
        actions.push(action);
    }
    (state, actions)
}

fn fetching(file: TempMediaFile, title_stdout: &[u8]) -> State {
    run(
        received(),
        vec![
            Event::Started,
            Event::ExtractorFinished(exited(Some(0), title_stdout)),
            Event::TempFileAllocated(file),
        ],
    )
    .0
}

fn written(actions: &[Action]) -> Vec<TempMediaFile> {
    let mut files = Vec::new();
    for action in actions {
        if let Action::RunExtractor(command) = action {
            for argument in &command.arguments {
                if let ytdlp_web::extractor::Argument::Output(file) = argument {
                    files.push(file.clone());
                }
            }
        }
    }
    files
}

fn removed(actions: &[Action]) -> Vec<TempMediaFile> {
    let mut files = Vec::new();
    for action in actions {
        match action {
            Action::Abort { file, .. } | Action::RemoveFile(file) => files.push(file.clone()),
            _ => {}
        }
    }
    files
}

#[test]
fn request_rejects_the_empty_url() {
    assert_eq!(DownloadVideoRequest::new(String::new()), None);
}

#[test]
fn request_keeps_its_url() {
    let request = DownloadVideoRequest::new(URL.to_string()).unwrap();
    assert_eq!(request.url(), URL);
    assert_eq!(request.into_url(), URL);
}

#[test]
fn request_does_not_validate_the_url() {
    let request = DownloadVideoRequest::new("not a url at all".to_string()).unwrap();
    assert_eq!(request.url(), "not a url at all");
}

#[test]
fn a_request_starts_as_received() {
    assert_eq!(received(), State::Received { url: URL.to_string() });
    assert!(!received().is_terminal());
    assert_eq!(received().held_file(), None);
}

#[test]
fn start_runs_the_title_command() {
    let (state, action) = step(received(), Event::Started);
    assert_eq!(state, State::TitleResolving { url: URL.to_string() });
    assert_eq!(action, Action::RunExtractor(Command::for_title(URL)));
}

#[test]
fn resolved_title_asks_for_a_temp_file() {
    let state = State::TitleResolving { url: URL.to_string() };
    let (state, action) = step(state, Event::ExtractorFinished(exited(Some(0), b"My Video.mp4\n")));
    assert_eq!(
        state,
        State::TitleResolved { url: URL.to_string(), title: "My Video.mp4".to_string() }
    );
    assert_eq!(action, Action::AllocateTempFile);
}

#[test]
fn failed_title_falls_back_and_goes_on() {
    let outcomes = vec![
        (exited(Some(1), b"x"), DownloadError::TitleExitErrorCode(1)),
        (exited(None, b"x"), DownloadError::TitleExitNoCode),
        (exited(Some(0), &[0xff]), DownloadError::FromUtf8),
        (
            Invocation::NotStarted("not found".to_string()),
            DownloadError::TitleCommand("not found".to_string()),
        ),
    ];
    for (invocation, error) in outcomes {
        let state = State::TitleResolving { url: URL.to_string() };
        let (state, action) = step(state, Event::ExtractorFinished(invocation));
        assert_eq!(state, State::TitleFallback { url: URL.to_string(), error });
        assert!(!state.is_terminal());
        assert_eq!(action, Action::AllocateTempFile);

        let (state, action) = step(state, Event::TempFileAllocated(file_a()));
        assert_eq!(
            state,
            State::VideoFetching {
                filename: "video".to_string(),
                file: file_a(),
                stage: FetchStage::Running
            }
        );
        assert_eq!(action, Action::RunExtractor(Command::for_fetch(file_a(), URL)));
    }
}

#[test]
fn allocated_file_starts_the_fetch() {
    let state = State::TitleResolved { url: URL.to_string(), title: "My Video #1.mp4".to_string() };
    let (state, action) = step(state, Event::TempFileAllocated(file_a()));
    assert_eq!(
        state,
        State::VideoFetching {
            filename: "My%20Video%20%231.mp4".to_string(),
            file: file_a(),
            stage: FetchStage::Running
        }
    );
    assert_eq!(action, Action::RunExtractor(Command::for_fetch(file_a(), URL)));
    assert_eq!(state.held_file(), Some(&file_a()));
}

#[test]
fn successful_fetch_opens_the_file() {
    let (state, action) = step(
        fetching(file_a(), b"T\n"),
        Event::ExtractorFinished(exited(Some(0), &[0xff, 0xff])),
    );
    assert_eq!(
        state,
        State::VideoFetching {
            filename: "T".to_string(),
            file: file_a(),
            stage: FetchStage::Opening
        }
    );
    assert_eq!(action, Action::OpenFile(file_a()));
}

#[test]
fn opened_file_is_sent_as_attachment() {
    let (state, actions) = run(
        fetching(file_a(), b" My Video #1.mp4\n"),
        vec![Event::ExtractorFinished(exited(Some(0), b"")), Event::FileOpened],
    );
    assert_eq!(state, State::StreamReady { file: file_a() });
    assert_eq!(actions[1], Action::Respond(Reply::download("My%20Video%20%231.mp4", file_a())));
    match &actions[1] {
        Action::Respond(reply) => {
            assert_eq!(reply.status, 200);
            assert_eq!(
                reply.headers,
                vec![
                    (
                        "Content-Disposition".to_string(),
                        "attachment; filename=My%20Video%20%231.mp4".to_string()
                    ),
                    ("Content-Type".to_string(), "application/octet-stream".to_string()),
                ]
            );
            assert_eq!(reply.body, Body::File(file_a()));
        }
        other => panic!("unexpected action {other:?}"),
    }
}

#[test]
fn header_filename_decodes_to_the_title() {
    let titles = ["My Video #1.mp4", "Ünïcödé – 日本語 🎬.mp4", "a/b\\c?d%e", "plain"];
    for title in titles {
        let printed = format!("  {title}\n");
        let (_, actions) = run(
            fetching(file_a(), printed.as_bytes()),
            vec![Event::ExtractorFinished(exited(Some(0), b"")), Event::FileOpened],
        );
        let reply = match &actions[1] {
            Action::Respond(reply) => reply.clone(),
            other => panic!("unexpected action {other:?}"),
        };
        let value = &reply.headers[0].1;
        assert!(value.bytes().all(|b| (0x20..=0x7e).contains(&b)));
        let name = value.strip_prefix("attachment; filename=").unwrap();
        assert_eq!(urlencoding::decode(name).unwrap(), title);
    }
}

#[test]
fn failed_fetch_aborts_with_a_server_error() {
    let outcomes = vec![
        (exited(Some(1), b""), DownloadError::VideoExitErrorCode(1)),
        (exited(Some(-9), b""), DownloadError::VideoExitErrorCode(-9)),
        (exited(None, b""), DownloadError::VideoExitNoCode),
        (
            Invocation::NotStarted("not found".to_string()),
            DownloadError::VideoCommand("not found".to_string()),
        ),
    ];
    for (invocation, error) in outcomes {
        let (state, action) = step(fetching(file_a(), b"T\n"), Event::ExtractorFinished(invocation));
        assert_eq!(state, State::FetchFailed { error });
        assert!(state.is_terminal());
        assert_eq!(state.held_file(), None);
        assert_eq!(action, Action::Abort { file: file_a(), reply: Reply::failure() });
    }
}

#[test]
fn unopenable_file_aborts_with_a_server_error() {
    let (state, actions) = run(
        fetching(file_a(), b"T\n"),
        vec![
            Event::ExtractorFinished(exited(Some(0), b"")),
            Event::FileOpenFailed("permission denied".to_string()),
        ],
    );
    assert_eq!(
        state,
        State::FetchFailed { error: DownloadError::TempFileOpen("permission denied".to_string()) }
    );
    assert_eq!(actions[1], Action::Abort { file: file_a(), reply: Reply::failure() });
    match &actions[1] {
        Action::Abort { reply, .. } => {
            assert_eq!(reply.status, 500);
            assert_eq!(reply.body, Body::Text("Error downloading video stream".to_string()));
        }
        other => panic!("unexpected action {other:?}"),
    }
}

#[test]
fn error_reply_tells_nothing_of_the_cause() {
    let (_, first) = step(
        fetching(file_a(), b"T\n"),
        Event::ExtractorFinished(Invocation::NotStarted("secret path /opt/x".to_string())),
    );
    let (_, second) = step(fetching(file_a(), b"T\n"), Event::ExtractorFinished(exited(Some(3), b"")));
    assert_eq!(first, second);
}

#[test]
fn stream_runs_to_completion() {
    let (state, actions) = run(
        fetching(file_a(), b"T\n"),
        vec![
            Event::ExtractorFinished(exited(Some(0), b"")),
            Event::FileOpened,
            Event::StreamStarted,
        ],
    );
    assert_eq!(state, State::Streaming { file: file_a() });
    assert_eq!(actions[2], Action::Nothing);
    let (state, action) = step(state, Event::Closed);
    assert_eq!(state, State::Completed);
    assert!(state.is_terminal());
    assert_eq!(action, Action::RemoveFile(file_a()));
}

#[test]
fn client_gone_before_the_body_flows() {
    let (state, _) = run(
        fetching(file_a(), b"T\n"),
        vec![Event::ExtractorFinished(exited(Some(0), b"")), Event::FileOpened],
    );
    let (state, action) = step(state, Event::Closed);
    assert_eq!(state, State::Completed);
    assert_eq!(action, Action::RemoveFile(file_a()));
}

#[test]
fn client_gone_during_the_fetch() {
    let (state, action) = step(fetching(file_a(), b"T\n"), Event::Closed);
    assert_eq!(state, State::Completed);
    assert_eq!(action, Action::RemoveFile(file_a()));
}

#[test]
fn client_gone_before_any_file_exists() {
    let early = vec![
        received(),
        State::TitleResolving { url: URL.to_string() },
        State::TitleResolved { url: URL.to_string(), title: "T".to_string() },
        State::TitleFallback { url: URL.to_string(), error: DownloadError::TitleExitNoCode },
    ];
    for state in early {
        let (state, action) = step(state, Event::Closed);
        assert_eq!(state, State::Completed);
        assert_eq!(action, Action::Nothing);
    }
}

#[test]
fn terminal_states_ignore_every_event() {
    let events = vec![
        Event::Started,
        Event::ExtractorFinished(exited(Some(0), b"T")),
        Event::TempFileAllocated(file_b()),
        Event::FileOpened,
        Event::FileOpenFailed("x".to_string()),
        Event::StreamStarted,
        Event::Closed,
    ];
    let ends = vec![State::Completed, State::FetchFailed { error: DownloadError::VideoExitNoCode }];
    for end in ends {
        for event in events.clone() {
            let (state, action) = step(end.clone(), event);
            assert_eq!(state, end);
            assert_eq!(action, Action::Nothing);
        }
    }
}

#[test]
fn unexpected_events_change_nothing() {
    let state = fetching(file_a(), b"T\n");
    for event in vec![
        Event::Started,
        Event::TempFileAllocated(file_b()),
        Event::FileOpened,
        Event::FileOpenFailed("x".to_string()),
        Event::StreamStarted,
    ] {
        let (next, action) = step(state.clone(), event);
        assert_eq!(next, state);
        assert_eq!(action, Action::Nothing);
    }
    let (next, action) = step(received(), Event::ExtractorFinished(exited(Some(0), b"T")));
    assert_eq!(next, received());
    assert_eq!(action, Action::Nothing);
}

#[test]
fn a_request_has_exactly_one_temp_file() {
    let (state, actions) = run(
        received(),
        vec![
            Event::Started,
            Event::ExtractorFinished(exited(Some(0), b"T\n")),
            Event::TempFileAllocated(file_a()),
            Event::TempFileAllocated(file_b()),
            Event::ExtractorFinished(exited(Some(0), b"")),
            Event::TempFileAllocated(file_b()),
            Event::FileOpened,
            Event::StreamStarted,
            Event::Closed,
            Event::Closed,
        ],
    );
    assert_eq!(state, State::Completed);
    assert_eq!(written(&actions), vec![file_a()]);
    assert_eq!(removed(&actions), vec![file_a()]);
}

#[test]
fn every_ending_removes_what_was_written() {
    let endings: Vec<Vec<Event>> = vec![
        vec![Event::Closed],
        vec![Event::Started, Event::Closed],
        vec![Event::Started, Event::ExtractorFinished(exited(None, b"")), Event::Closed],
        vec![
            Event::Started,
            Event::ExtractorFinished(exited(Some(0), b"T")),
            Event::TempFileAllocated(file_a()),
            Event::Closed,
        ],
        vec![
            Event::Started,
            Event::ExtractorFinished(exited(Some(0), b"T")),
            Event::TempFileAllocated(file_a()),
            Event::ExtractorFinished(exited(Some(1), b"")),
            Event::Closed,
        ],
        vec![
            Event::Started,
            Event::ExtractorFinished(exited(Some(0), b"T")),
            Event::TempFileAllocated(file_a()),
            Event::ExtractorFinished(exited(Some(0), b"")),
            Event::Closed,
        ],
        vec![
            Event::Started,
            Event::ExtractorFinished(exited(Some(0), b"T")),
            Event::TempFileAllocated(file_a()),
            Event::ExtractorFinished(exited(Some(0), b"")),
            Event::FileOpenFailed("x".to_string()),
        ],
        vec![
            Event::Started,
            Event::ExtractorFinished(exited(Some(0), b"T")),
            Event::TempFileAllocated(file_a()),
            Event::ExtractorFinished(exited(Some(0), b"")),
            Event::FileOpened,
            Event::StreamStarted,
            Event::Closed,
        ],
    ];
    for events in endings {
        let (state, actions) = run(received(), events);
        assert!(state.is_terminal());
        assert_eq!(state.held_file(), None);
        assert_eq!(removed(&actions), written(&actions));
        assert!(written(&actions).len() <= 1);
    }
}

#[test]
fn two_requests_keep_to_their_own_files() {
    let script = |file: TempMediaFile| {
        vec![
            Event::Started,
            Event::ExtractorFinished(exited(Some(0), b"T")),
            Event::TempFileAllocated(file),
            Event::ExtractorFinished(exited(Some(0), b"")),
            Event::FileOpened,
            Event::StreamStarted,
            Event::Closed,
        ]
    };
    let first = State::new(DownloadVideoRequest::new("https://example.com/1".to_string()).unwrap());
    let second = State::new(DownloadVideoRequest::new("https://example.com/2".to_string()).unwrap());
    let (_, first_actions) = run(first, script(file_a()));
    let (_, second_actions) = run(second, script(file_b()));
    assert_ne!(file_a().path(), file_b().path());
    for action in &first_actions {
        assert!(!format!("{action:?}").contains(&file_b().name));
    }
    for action in &second_actions {
        assert!(!format!("{action:?}").contains(&file_a().name));
    }
    assert_eq!(removed(&first_actions), vec![file_a()]);
    assert_eq!(removed(&second_actions), vec![file_b()]);
}

#[test]
fn advance_picks_the_temp_file_itself() {
    let state = State::TitleResolving { url: URL.to_string() };
    let (state, action) = advance(state, Event::ExtractorFinished(exited(Some(0), b"My Video\n")));
    let file = match &state {
        State::VideoFetching { filename, file, stage } => {
            assert_eq!(filename, "My%20Video");
            assert_eq!(*stage, FetchStage::Running);
            file.clone()
        }
        other => panic!("unexpected state {other:?}"),
    };
    assert_eq!(file.directory, tempfile::env::temp_dir());
    assert!(file.name.starts_with("ytdlp-web-") && file.name.ends_with(".mp4"));
    assert_eq!(action, Action::RunExtractor(Command::for_fetch(file, URL)));
}

#[test]
fn advance_falls_back_and_fetches() {
    let state = State::TitleResolving { url: URL.to_string() };
    let (state, action) = advance(state, Event::ExtractorFinished(exited(Some(1), b"")));
    match (&state, &action) {
        (State::VideoFetching { filename, file, .. }, Action::RunExtractor(command)) => {
            assert_eq!(filename, "video");
            assert_eq!(*command, Command::for_fetch(file.clone(), URL));
        }
        other => panic!("unexpected move {other:?}"),
    }
}

#[test]
fn advance_is_step_elsewhere() {
    let scripts: Vec<(State, Event)> = vec![
        (received(), Event::Started),
        (received(), Event::Closed),
        (fetching(file_a(), b"T"), Event::ExtractorFinished(exited(Some(0), b""))),
        (fetching(file_a(), b"T"), Event::ExtractorFinished(exited(None, b""))),
        (fetching(file_a(), b"T"), Event::Closed),
        (State::StreamReady { file: file_a() }, Event::StreamStarted),
        (State::Streaming { file: file_a() }, Event::Closed),
        (State::Completed, Event::Started),
    ];
    for (state, event) in scripts {
        assert_eq!(advance(state.clone(), event.clone()), step(state, event));
    }
}

#[test]
fn two_advancing_requests_get_different_files() {
    let title = || Event::ExtractorFinished(exited(Some(0), b"T"));
    let (first, _) = advance(State::TitleResolving { url: URL.to_string() }, title());
    let (second, _) = advance(State::TitleResolving { url: URL.to_string() }, title());
    let first = first.held_file().unwrap().clone();
    let second = second.held_file().unwrap().clone();
    assert_ne!(first.name, second.name);
    assert_ne!(first.path(), second.path());
}
