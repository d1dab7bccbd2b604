//! The download handler: one request's way from the inbound URL to a
//! streamed file or a server error.
//!
//! The handler is a state machine. It never runs a process or touches a
//! file: [`step`] takes the state and what has just happened, and answers
//! with the next state and the one thing the server has to do now.

use vstd::prelude::*;
use crate::error::{DownloadError, DownloadErrorModel};
use crate::extractor::{
    check_fetch, fetch_command, fetch_failure, title_command, Command, CommandModel, Invocation,
    InvocationModel,
};
use crate::response::{download_reply, failure_reply, Reply, ReplyModel};
use crate::storage::{is_entry_name, is_token, temp_file_name, TempMediaFile, TempMediaFileModel};
use crate::title::{download_filename, get_video_title, offered_name, resolved_title};

verus! {

/// A request to download the media behind a URL.
#[derive(Debug, PartialEq, Eq)]
pub struct DownloadVideoRequest {
    url: String,
}

impl DownloadVideoRequest {
    #[verifier::type_invariant]
    spec fn well_formed(self) -> bool {
        self.url@.len() > 0
    }

    /// The URL of the request, as text.
    pub closed spec fn url_text(self) -> Seq<char> {
        self.url@
    }

    /// Accepts any URL but the empty one. Whether the URL leads to media is
    /// for the extractor to say.
    pub fn new(url: String) -> (request: Option<DownloadVideoRequest>)
        ensures
            request is Some <==> url@.len() > 0,
            request matches Some(accepted) ==> accepted.url_text() == url@,
    {
        if url.as_str().is_empty() {
            None
        } else {
            Some(DownloadVideoRequest { url })
        }
    }

    /// The URL of the request, which is never empty.
    pub fn url(&self) -> (url: &str)
        ensures
            url@ == self.url_text(),
            url@.len() > 0,
    {
        proof {
            use_type_invariant(self);
        }
        self.url.as_str()
    }

    /// Gives up the request for its URL.
    pub fn into_url(self) -> (url: String)
        ensures
            url@ == self.url_text(),
            url@.len() > 0,
    {
        proof {
            use_type_invariant(&self);
        }
        self.url
    }
}

/// What the video fetcher is waiting for.
#[derive(Clone, Copy, Debug, PartialEq, Eq, Structural)]
pub enum FetchStage {
    /// The extractor is writing the file.
    Running,
    /// The extractor succeeded and the file is being opened.
    Opening,
}

/// Where a request stands.
#[derive(Clone, Debug, PartialEq, Eq)]
pub enum State {
    /// The request has arrived and nothing has been done yet.
    Received { url: String },
    /// The extractor is running in title mode.
    TitleResolving { url: String },
    /// The extractor reported this title.
    TitleResolved { url: String, title: String },
    /// The title could not be resolved, for this reason; the fallback name
    /// will be used.
    TitleFallback { url: String, error: DownloadError },
    /// The video is being fetched into `file`, to be offered as `filename`.
    VideoFetching { filename: String, file: TempMediaFile, stage: FetchStage },
    /// The file is open and the reply is on its way to the HTTP layer.
    StreamReady { file: TempMediaFile },
    /// The body is being sent.
    Streaming { file: TempMediaFile },
    /// The request is over and has left nothing behind.
    Completed,
    /// The video could not be fetched, for this reason; the client got a
    /// server error.
    FetchFailed { error: DownloadError },
}

/// Mathematical model of a [`State`].
pub enum StateModel {
    Received { url: Seq<char> },
    TitleResolving { url: Seq<char> },
    TitleResolved { url: Seq<char>, title: Seq<char> },
    TitleFallback { url: Seq<char>, error: DownloadErrorModel },
    VideoFetching { filename: Seq<char>, file: TempMediaFileModel, stage: FetchStage },
    StreamReady { file: TempMediaFileModel },
    Streaming { file: TempMediaFileModel },
    Completed,
    FetchFailed { error: DownloadErrorModel },
}

impl View for State {
    type V = StateModel;

    open spec fn view(&self) -> StateModel {
        match self {
            State::Received { url } => StateModel::Received { url: url@ },
            State::TitleResolving { url } => StateModel::TitleResolving { url: url@ },
            State::TitleResolved { url, title } => StateModel::TitleResolved {
                url: url@,
                title: title@,
            },
            State::TitleFallback { url, error } => StateModel::TitleFallback {
                url: url@,
                error: error@,
            },
            State::VideoFetching { filename, file, stage } => StateModel::VideoFetching {
                filename: filename@,
                file: file@,
                stage: *stage,
            },
            State::StreamReady { file } => StateModel::StreamReady { file: file@ },
            State::Streaming { file } => StateModel::Streaming { file: file@ },
            State::Completed => StateModel::Completed,
            State::FetchFailed { error } => StateModel::FetchFailed { error: error@ },
        }
    }
}

/// What has just happened for a request.
#[derive(Clone, Debug, PartialEq, Eq)]
pub enum Event {
    /// The handler has taken up the request.
    Started,
    /// The extractor run that was asked for has ended, in this way.
    ExtractorFinished(Invocation),
    /// The temporary file that was asked for has been picked.
    TempFileAllocated(TempMediaFile),
    /// The temporary file is open for reading.
    FileOpened,
    /// The temporary file could not be opened; holds the cause.
    FileOpenFailed(String),
    /// The HTTP layer has begun to send the body.
    StreamStarted,
    /// Nothing more will be sent: the body is out in full, or the client has
    /// gone away.
    Closed,
}

/// Mathematical model of an [`Event`].
pub enum EventModel {
    Started,
    ExtractorFinished(InvocationModel),
    TempFileAllocated(TempMediaFileModel),
    FileOpened,
    FileOpenFailed(Seq<char>),
    StreamStarted,
    Closed,
}

impl View for Event {
    type V = EventModel;

    open spec fn view(&self) -> EventModel {
        match self {
            Event::Started => EventModel::Started,
            Event::ExtractorFinished(invocation) => EventModel::ExtractorFinished(invocation@),
            Event::TempFileAllocated(file) => EventModel::TempFileAllocated(file@),
            Event::FileOpened => EventModel::FileOpened,
            Event::FileOpenFailed(cause) => EventModel::FileOpenFailed(cause@),
            Event::StreamStarted => EventModel::StreamStarted,
            Event::Closed => EventModel::Closed,
        }
    }
}

/// The one thing the server has to do next. Each action but `Nothing`,
/// `Abort` and `RemoveFile` is answered by an event.
#[derive(Clone, Debug, PartialEq, Eq)]
pub enum Action {
    /// Nothing to do.
    Nothing,
    /// Run this command, capture its output in full, and report how it ended
    /// with `ExtractorFinished`.
    RunExtractor(Command),
    /// Pick a temporary file with [`TempMediaFile::allocate`] and report it
    /// with `TempFileAllocated`.
    AllocateTempFile,
    /// Open this file for reading and report `FileOpened` or `FileOpenFailed`.
    OpenFile(TempMediaFile),
    /// Send this reply, whose body is the open file. Report `StreamStarted`
    /// when the body begins to flow and `Closed` when it ends or is dropped.
    Respond(Reply),
    /// Remove this file, then send this reply. The request is over.
    Abort { file: TempMediaFile, reply: Reply },
    /// Remove this file. The request is over.
    RemoveFile(TempMediaFile),
}

/// Mathematical model of an [`Action`].
pub enum ActionModel {
    Nothing,
    RunExtractor(CommandModel),
    AllocateTempFile,
    OpenFile(TempMediaFileModel),
    Respond(ReplyModel),
    Abort { file: TempMediaFileModel, reply: ReplyModel },
    RemoveFile(TempMediaFileModel),
}

impl View for Action {
    type V = ActionModel;

    open spec fn view(&self) -> ActionModel {
        match self {
            Action::Nothing => ActionModel::Nothing,
            Action::RunExtractor(command) => ActionModel::RunExtractor(command@),
            Action::AllocateTempFile => ActionModel::AllocateTempFile,
            Action::OpenFile(file) => ActionModel::OpenFile(file@),
            Action::Respond(reply) => ActionModel::Respond(reply@),
            Action::Abort { file, reply } => ActionModel::Abort { file: file@, reply: reply@ },
            Action::RemoveFile(file) => ActionModel::RemoveFile(file@),
        }
    }
}

impl StateModel {
    /// Whether the request is over: no event changes the state any more.
    pub open spec fn is_terminal(self) -> bool {
        self is Completed || self is FetchFailed
    }

    /// The temporary file the request owns in this state, if any.
    pub open spec fn held_file(self) -> Option<TempMediaFileModel> {
        match self {
            StateModel::VideoFetching { file, .. } => Some(file),
            StateModel::StreamReady { file } => Some(file),
            StateModel::Streaming { file } => Some(file),
            _ => None,
        }
    }
}

/// The state a request is left in when nothing more will be sent, and what
/// is to be done about the file it holds.
pub open spec fn closed(state: StateModel) -> (StateModel, ActionModel) {
    if state.is_terminal() {
        (state, ActionModel::Nothing)
    } else {
        match state.held_file() {
            Some(file) => (StateModel::Completed, ActionModel::RemoveFile(file)),
            None => (StateModel::Completed, ActionModel::Nothing),
        }
    }
}

/// The transition function: the state that follows `state` when `event`
/// happens, and the action that goes with the move. An event that the state
/// does not wait for changes nothing.
pub open spec fn next(state: StateModel, event: EventModel) -> (StateModel, ActionModel) {
    match (state, event) {
        (StateModel::Received { url }, EventModel::Started) => (
            StateModel::TitleResolving { url },
            ActionModel::RunExtractor(title_command(url)),
        ),
        (StateModel::TitleResolving { url }, EventModel::ExtractorFinished(invocation)) => (
            match resolved_title(invocation) {
                Ok(title) => StateModel::TitleResolved { url, title },
                Err(error) => StateModel::TitleFallback { url, error },
            },
            ActionModel::AllocateTempFile,
        ),
        (StateModel::TitleResolved { url, title }, EventModel::TempFileAllocated(file)) => (
            StateModel::VideoFetching {
                filename: offered_name(Ok(title)),
                file,
                stage: FetchStage::Running,
            },
            ActionModel::RunExtractor(fetch_command(file, url)),
        ),
        (StateModel::TitleFallback { url, error }, EventModel::TempFileAllocated(file)) => (
            StateModel::VideoFetching {
                filename: offered_name(Err(error)),
                file,
                stage: FetchStage::Running,
            },
            ActionModel::RunExtractor(fetch_command(file, url)),
        ),
        (
            StateModel::VideoFetching { filename, file, stage: FetchStage::Running },
            EventModel::ExtractorFinished(invocation),
        ) => match fetch_failure(invocation) {
            None => (
                StateModel::VideoFetching { filename, file, stage: FetchStage::Opening },
                ActionModel::OpenFile(file),
            ),
            Some(error) => (
                StateModel::FetchFailed { error },
                ActionModel::Abort { file, reply: failure_reply() },
            ),
        },
        (
            StateModel::VideoFetching { filename, file, stage: FetchStage::Opening },
            EventModel::FileOpened,
        ) => (
            StateModel::StreamReady { file },
            ActionModel::Respond(download_reply(filename, file)),
        ),
        (
            StateModel::VideoFetching { filename, file, stage: FetchStage::Opening },
            EventModel::FileOpenFailed(cause),
        ) => (
            StateModel::FetchFailed { error: DownloadErrorModel::TempFileOpen(cause) },
            ActionModel::Abort { file, reply: failure_reply() },
        ),
        (StateModel::StreamReady { file }, EventModel::StreamStarted) => (
            StateModel::Streaming { file },
            ActionModel::Nothing,
        ),
        (state, EventModel::Closed) => closed(state),
        (state, _) => (state, ActionModel::Nothing),
    }
}

impl State {
    /// The state of a request that has just arrived.
    pub fn new(request: DownloadVideoRequest) -> (state: State)
        ensures
            state@ == (StateModel::Received { url: request.url_text() }),
    {
        State::Received { url: request.into_url() }
    }

    /// Whether the request is over.
    pub fn is_terminal(&self) -> (over: bool)
        ensures
            over == self@.is_terminal(),
    {
        match self {
            State::Completed => true,
            State::FetchFailed { .. } => true,
            _ => false,
        }
    }

    /// The temporary file the request owns in this state, if any.
    pub fn held_file(&self) -> (held: Option<&TempMediaFile>)
        ensures
            match held {
                Some(file) => self@.held_file() == Some(file@),
                None => self@.held_file() is None,
            },
    {
        match self {
            State::VideoFetching { file, .. } => Some(file),
            State::StreamReady { file } => Some(file),
            State::Streaming { file } => Some(file),
            _ => None,
        }
    }
}

/// Ends a request early or at its natural end: the file it holds, if any, is
/// to be removed.
fn close(state: State) -> (moved: (State, Action))
    ensures
        (moved.0@, moved.1@) == closed(state@),
{
    match state {
        State::Completed => (State::Completed, Action::Nothing),
        State::FetchFailed { error } => (State::FetchFailed { error }, Action::Nothing),
        State::VideoFetching { file, .. } => (State::Completed, Action::RemoveFile(file)),
        State::StreamReady { file } => (State::Completed, Action::RemoveFile(file)),
        State::Streaming { file } => (State::Completed, Action::RemoveFile(file)),
        _ => (State::Completed, Action::Nothing),
    }
}

/// Moves a request on by one event.
pub fn step(state: State, event: Event) -> (moved: (State, Action))
    ensures
        (moved.0@, moved.1@) == next(state@, event@),
{
    match (state, event) {
        (State::Received { url }, Event::Started) => {
            let command = Command::for_title(url.as_str());
            (State::TitleResolving { url }, Action::RunExtractor(command))
        },
        (State::TitleResolving { url }, Event::ExtractorFinished(invocation)) => {
            match get_video_title(invocation) {
                Ok(title) => (State::TitleResolved { url, title }, Action::AllocateTempFile),
                Err(error) => (State::TitleFallback { url, error }, Action::AllocateTempFile),
            }
        },
        (State::TitleResolved { url, title }, Event::TempFileAllocated(file)) => {
            let filename = download_filename(&Ok(title));
            let command = Command::for_fetch(file.duplicate(), url.as_str());
            (
                State::VideoFetching { filename, file, stage: FetchStage::Running },
                Action::RunExtractor(command),
            )
        },
        (State::TitleFallback { url, error }, Event::TempFileAllocated(file)) => {
            let filename = download_filename(&Err(error));
            let command = Command::for_fetch(file.duplicate(), url.as_str());
            (
                State::VideoFetching { filename, file, stage: FetchStage::Running },
                Action::RunExtractor(command),
            )
        },
        (
            State::VideoFetching { filename, file, stage: FetchStage::Running },
            Event::ExtractorFinished(invocation),
        ) => {
            match check_fetch(invocation) {
                Ok(_) => {
                    let action = Action::OpenFile(file.duplicate());
                    (State::VideoFetching { filename, file, stage: FetchStage::Opening }, action)
                },
                Err(error) => (
                    State::FetchFailed { error },
                    Action::Abort { file, reply: Reply::failure() },
                ),
            }
        },
        (
            State::VideoFetching { filename, file, stage: FetchStage::Opening },
            Event::FileOpened,
        ) => {
            let reply = Reply::download(filename.as_str(), file.duplicate());
            (State::StreamReady { file }, Action::Respond(reply))
        },
        (
            State::VideoFetching { filename: _, file, stage: FetchStage::Opening },
            Event::FileOpenFailed(cause),
        ) => (
            State::FetchFailed { error: DownloadError::TempFileOpen(cause) },
            Action::Abort { file, reply: Reply::failure() },
        ),
        (State::StreamReady { file }, Event::StreamStarted) => (
            State::Streaming { file },
            Action::Nothing,
        ),
        (state, Event::Closed) => close(state),
        (state, _) => (state, Action::Nothing),
    }
}

/// Moves a request on by one event, as [`step`] does, and picks the
/// temporary file at once where `step` would ask for one. The file is
/// random, so the contract says what holds of whichever file was picked.
pub fn advance(state: State, event: Event) -> (moved: (State, Action))
    ensures
        !(moved.1@ is AllocateTempFile),
        !(next(state@, event@).1 is AllocateTempFile) ==> (moved.0@, moved.1@) == next(
            state@,
            event@,
        ),
        next(state@, event@).1 is AllocateTempFile ==> exists|file: TempMediaFileModel|
            {
                &&& is_entry_name(file.name)
                &&& exists|token: Seq<char>|
                    is_token(token) && file.name == #[trigger] temp_file_name(token)
                &&& (moved.0@, moved.1@) == #[trigger] next(
                    next(state@, event@).0,
                    EventModel::TempFileAllocated(file),
                )
            },
{
    let (waiting, action) = step(state, event);
    match action {
        Action::AllocateTempFile => {
            let file = TempMediaFile::allocate();
            let ghost picked = file@;
            let moved = step(waiting, Event::TempFileAllocated(file));
            assert((moved.0@, moved.1@) == next(
                next(state@, event@).0,
                EventModel::TempFileAllocated(picked),
            ));
            moved
        },
        action => (waiting, action),
    }
}

} // verus!
