//! What holds of a request over its whole life, whatever happens to it.
//!
//! A life is the initial state and a sequence of events; the handler answers
//! each event with an action. The laws here speak of every such sequence.

use vstd::prelude::*;
use crate::encoding::{
    decoded_text, encoded_text, is_header_safe, lemma_encoded_text_is_header_safe,
    lemma_text_round_trip,
};
use crate::extractor::{fetch_failure, lemma_command_outputs, InvocationModel};
use crate::handler::{next, ActionModel, EventModel, FetchStage, StateModel};
use crate::response::{
    content_disposition, download_reply, failure_reply, lemma_content_disposition_is_header_safe,
    BodyModel,
};
use crate::storage::TempMediaFileModel;
use crate::title::{lemma_fallback_name_is_plain, offered_name, resolved_title};

verus! {

impl ActionModel {
    /// The file that carrying out the action brings into being, if any.
    pub open spec fn written_file(self) -> Option<TempMediaFileModel> {
        match self {
            ActionModel::RunExtractor(command) => command.output(),
            _ => None,
        }
    }

    /// The file that carrying out the action removes, if any.
    pub open spec fn removed_file(self) -> Option<TempMediaFileModel> {
        match self {
            ActionModel::Abort { file, .. } => Some(file),
            ActionModel::RemoveFile(file) => Some(file),
            _ => None,
        }
    }

    /// The file that the action is about, if any.
    pub open spec fn file(self) -> Option<TempMediaFileModel> {
        match self {
            ActionModel::RunExtractor(command) => command.output(),
            ActionModel::OpenFile(file) => Some(file),
            ActionModel::Respond(reply) => match reply.body {
                BodyModel::File(file) => Some(file),
                BodyModel::Text(_) => None,
            },
            ActionModel::Abort { file, .. } => Some(file),
            ActionModel::RemoveFile(file) => Some(file),
            _ => None,
        }
    }
}

/// The state reached from `state` by a sequence of events, and the actions
/// given along the way, one for each event.
pub open spec fn run(state: StateModel, events: Seq<EventModel>) -> (StateModel, Seq<ActionModel>)
    decreases events.len(),
{
    if events.len() == 0 {
        (state, Seq::empty())
    } else {
        let (before, actions) = run(state, events.drop_last());
        let (after, action) = next(before, events.last());
        (after, actions.push(action))
    }
}

/// The file that a sequence of actions has left on disk: the one written
/// last, unless it has been removed since.
pub open spec fn left_on_disk(actions: Seq<ActionModel>) -> Option<TempMediaFileModel>
    decreases actions.len(),
{
    if actions.len() == 0 {
        None
    } else {
        let before = left_on_disk(actions.drop_last());
        let action = actions.last();
        if action.written_file() is Some {
            action.written_file()
        } else if action.removed_file() is Some && action.removed_file() == before {
            None
        } else {
            before
        }
    }
}

/// How many of the actions write a file.
pub open spec fn writes(actions: Seq<ActionModel>) -> nat
    decreases actions.len(),
{
    if actions.len() == 0 {
        0
    } else {
        writes(actions.drop_last()) + if actions.last().written_file() is Some {
            1nat
        } else {
            0nat
        }
    }
}

/// How many of the actions remove a file.
pub open spec fn removals(actions: Seq<ActionModel>) -> nat
    decreases actions.len(),
{
    if actions.len() == 0 {
        0
    } else {
        removals(actions.drop_last()) + if actions.last().removed_file() is Some {
            1nat
        } else {
            0nat
        }
    }
}

/// How many of the actions run the extractor.
pub open spec fn extractor_runs(actions: Seq<ActionModel>) -> nat
    decreases actions.len(),
{
    if actions.len() == 0 {
        0
    } else {
        extractor_runs(actions.drop_last()) + if actions.last() is RunExtractor {
            1nat
        } else {
            0nat
        }
    }
}

impl StateModel {
    /// Whether the error a state holds, if any, comes from the phase that
    /// the state stands for: a fallback is due to the title, a failed fetch
    /// to the video.
    pub open spec fn error_fits(self) -> bool {
        match self {
            StateModel::TitleFallback { error, .. } => error.in_title_phase(),
            StateModel::FetchFailed { error } => !error.in_title_phase(),
            _ => true,
        }
    }

    /// Whether the state diagram has an arrow from this state to `after`.
    pub open spec fn leads_to(self, after: StateModel) -> bool {
        match self {
            StateModel::Received { .. } => after is TitleResolving || after is Completed,
            StateModel::TitleResolving { .. } => after is TitleResolved || after is TitleFallback
                || after is Completed,
            StateModel::TitleResolved { .. } | StateModel::TitleFallback { .. } => after
                is VideoFetching || after is Completed,
            StateModel::VideoFetching { stage, .. } => (stage == FetchStage::Running
                && after matches StateModel::VideoFetching { stage: FetchStage::Opening, .. })
                || (stage == FetchStage::Opening && after is StreamReady) || after is FetchFailed
                || after is Completed,
            StateModel::StreamReady { .. } => after is Streaming || after is Completed,
            StateModel::Streaming { .. } => after is Completed,
            StateModel::Completed | StateModel::FetchFailed { .. } => false,
        }
    }
}

/// Law: a step either leaves the state as it is or follows an arrow of the
/// state diagram, so the title is settled before the fetch begins and the
/// fetch before the stream. The error a state holds comes from the state's
/// own phase: no title error ever fails a request.
pub proof fn lemma_step_follows_the_diagram(state: StateModel, event: EventModel)
    ensures
        ({
            let (after, action) = next(state, event);
            &&& after == state || state.leads_to(after)
            &&& after == state ==> action is Nothing
            &&& state.error_fits() ==> after.error_fits()
            &&& state is TitleResolving && event is ExtractorFinished ==> !after.is_terminal()
        }),
{
}

/// Law: a step writes a file only into a state that holds none, and the
/// state then holds that file; it removes only the file that the state
/// holds, and the state then holds none; any other step leaves the held file
/// as it is. A state in which the request is over holds no file.
pub proof fn lemma_step_accounts_for_the_file(state: StateModel, event: EventModel)
    ensures
        ({
            let (after, action) = next(state, event);
            &&& action.written_file() is Some ==> state.held_file() is None && after.held_file()
                == action.written_file()
            &&& action.removed_file() is Some ==> action.written_file() is None
                && state.held_file() == action.removed_file() && after.held_file() is None
            &&& action.written_file() is None && action.removed_file() is None
                ==> after.held_file() == state.held_file()
            &&& after.is_terminal() ==> after.held_file() is None
            &&& action.file() is Some ==> action.file() == state.held_file() || action.file()
                == after.held_file()
            &&& state.is_terminal() ==> after == state && action is Nothing
        }),
{
    match (state, event) {
        (StateModel::Received { url }, EventModel::Started) => {
            lemma_command_outputs(arbitrary(), url);
        },
        (StateModel::TitleResolved { url, .. }, EventModel::TempFileAllocated(file)) => {
            lemma_command_outputs(file, url);
        },
        (StateModel::TitleFallback { url, .. }, EventModel::TempFileAllocated(file)) => {
            lemma_command_outputs(file, url);
        },
        _ => {},
    }
}

/// Where a request that began in `Received` can be after some events, told
/// by what its actions have written and removed so far.
spec fn ledger_agrees(state: StateModel, actions: Seq<ActionModel>) -> bool {
    &&& left_on_disk(actions) == state.held_file()
    &&& match state {
        StateModel::Received { .. } => writes(actions) == 0 && removals(actions) == 0
            && extractor_runs(actions) == 0,
        StateModel::TitleResolving { .. } | StateModel::TitleResolved { .. } | StateModel::TitleFallback {
            ..
        } => writes(actions) == 0 && removals(actions) == 0 && extractor_runs(actions) == 1,
        StateModel::VideoFetching { .. } | StateModel::StreamReady { .. } | StateModel::Streaming {
            ..
        } => writes(actions) == 1 && removals(actions) == 0 && extractor_runs(actions) == 2,
        StateModel::Completed | StateModel::FetchFailed { .. } => removals(actions) == writes(
            actions,
        ) && writes(actions) <= 1 && writes(actions) <= extractor_runs(actions) <= 1 + writes(
            actions,
        ),
    }
    &&& state.error_fits()
}

/// Law: however a request goes, it writes at most one temporary file, it
/// removes nothing but that file and removes it at most once, and when the
/// request is over, by success, by failure or because the client went away,
/// no file is left on disk.
pub proof fn lemma_no_file_outlives_its_request(url: Seq<char>, events: Seq<EventModel>)
    ensures
        ({
            let (state, actions) = run(StateModel::Received { url }, events);
            &&& actions.len() == events.len()
            &&& left_on_disk(actions) == state.held_file()
            &&& writes(actions) <= 1
            &&& removals(actions) <= writes(actions)
            &&& state.is_terminal() ==> left_on_disk(actions) is None && removals(actions)
                == writes(actions)
        }),
{
    lemma_run_keeps_the_ledger(url, events);
}

/// Law: nothing is tried twice. However a request goes, the extractor runs
/// at most once to resolve the title and at most once to fetch the video.
pub proof fn lemma_nothing_is_retried(url: Seq<char>, events: Seq<EventModel>)
    ensures
        ({
            let (state, actions) = run(StateModel::Received { url }, events);
            &&& writes(actions) <= 1
            &&& writes(actions) <= extractor_runs(actions) <= 1 + writes(actions)
        }),
{
    lemma_run_keeps_the_ledger(url, events);
}

/// Law: title failures are never seen by the client. A request fails only
/// for an error of the video phase, and falls back only for one of the
/// title phase.
pub proof fn lemma_title_errors_never_fail_a_request(url: Seq<char>, events: Seq<EventModel>)
    ensures
        ({
            let (state, actions) = run(StateModel::Received { url }, events);
            &&& state matches StateModel::FetchFailed { error } ==> !error.in_title_phase()
            &&& state matches StateModel::TitleFallback { error, .. } ==> error.in_title_phase()
        }),
{
    lemma_run_keeps_the_ledger(url, events);
}

proof fn lemma_run_keeps_the_ledger(url: Seq<char>, events: Seq<EventModel>)
    ensures
        ledger_agrees(
            run(StateModel::Received { url }, events).0,
            run(StateModel::Received { url }, events).1,
        ),
        run(StateModel::Received { url }, events).1.len() == events.len(),
    decreases events.len(),
{
    let start = StateModel::Received { url };
    if events.len() > 0 {
        let (before, actions) = run(start, events.drop_last());
        let (after, action) = next(before, events.last());
        lemma_run_keeps_the_ledger(url, events.drop_last());
        lemma_step_accounts_for_the_file(before, events.last());
        lemma_step_follows_the_diagram(before, events.last());
        let all = actions.push(action);
        assert(all.drop_last() =~= actions);
        assert(all.last() == action);
    }
}

/// Law: every file that an action of a request is about was handed to the
/// request by an earlier `TempFileAllocated` event. A request never touches
/// a file that was picked for another one.
pub proof fn lemma_actions_keep_to_the_allocated_file(
    url: Seq<char>,
    events: Seq<EventModel>,
    index: int,
)
    requires
        0 <= index < events.len(),
        run(StateModel::Received { url }, events).1[index].file() is Some,
    ensures
        exists|earlier: int|
            0 <= earlier <= index && #[trigger] events[earlier] == EventModel::TempFileAllocated(
                run(StateModel::Received { url }, events).1[index].file()->0,
            ),
    decreases events.len(),
{
    let start = StateModel::Received { url };
    let (before, actions) = run(start, events.drop_last());
    let (after, action) = next(before, events.last());
    let shorter = events.drop_last();
    lemma_run_keeps_the_ledger(url, shorter);
    if index < events.len() - 1 {
        lemma_actions_keep_to_the_allocated_file(url, shorter, index);
        let earlier = choose|earlier: int|
            0 <= earlier <= index && #[trigger] shorter[earlier] == EventModel::TempFileAllocated(
                actions[index].file()->0,
            );
        assert(events[earlier] == shorter[earlier]);
    } else {
        lemma_step_accounts_for_the_file(before, events.last());
        let file = action.file()->0;
        if before.held_file() == Some(file) {
            lemma_held_file_was_allocated(url, shorter);
            let earlier = choose|earlier: int|
                0 <= earlier < shorter.len() && #[trigger] shorter[earlier]
                    == EventModel::TempFileAllocated(file);
            assert(events[earlier] == shorter[earlier]);
        } else {
            assert(after.held_file() == Some(file));
            assert(events[index] == EventModel::TempFileAllocated(file));
        }
    }
}

/// The file a request holds was handed to it by one of its events.
proof fn lemma_held_file_was_allocated(url: Seq<char>, events: Seq<EventModel>)
    requires
        run(StateModel::Received { url }, events).0.held_file() is Some,
    ensures
        exists|earlier: int|
            0 <= earlier < events.len() && #[trigger] events[earlier]
                == EventModel::TempFileAllocated(
                run(StateModel::Received { url }, events).0.held_file()->0,
            ),
    decreases events.len(),
{
    let start = StateModel::Received { url };
    if events.len() > 0 {
        let shorter = events.drop_last();
        let (before, actions) = run(start, shorter);
        let (after, action) = next(before, events.last());
        let file = after.held_file()->0;
        if before.held_file() == Some(file) {
            lemma_held_file_was_allocated(url, shorter);
            let earlier = choose|earlier: int|
                0 <= earlier < shorter.len() && #[trigger] shorter[earlier]
                    == EventModel::TempFileAllocated(file);
            assert(events[earlier] == shorter[earlier]);
        } else {
            assert(events[events.len() - 1] == EventModel::TempFileAllocated(file));
        }
    }
}

/// Law: a request whose fetch succeeds is answered with status 200, whatever
/// became of the title. The file is offered under the percent-encoded title,
/// or under the fallback name where the title could not be resolved; the
/// header value is safe to send; and the body is the file that the extractor
/// was told to write.
pub proof fn lemma_fetched_video_is_delivered(
    url: Seq<char>,
    title_run: InvocationModel,
    file: TempMediaFileModel,
    fetch_run: InvocationModel,
)
    requires
        fetch_failure(fetch_run) is None,
    ensures
        ({
            let received = StateModel::Received { url };
            let (resolving, first) = next(received, EventModel::Started);
            let (resolved, second) = next(resolving, EventModel::ExtractorFinished(title_run));
            let (fetching, third) = next(resolved, EventModel::TempFileAllocated(file));
            let (opening, fourth) = next(fetching, EventModel::ExtractorFinished(fetch_run));
            let (ready, fifth) = next(opening, EventModel::FileOpened);
            let filename = offered_name(resolved_title(title_run));
            &&& !resolved.is_terminal()
            &&& third.written_file() == Some(file)
            &&& fourth == ActionModel::OpenFile(file)
            &&& ready == (StateModel::StreamReady { file })
            &&& fifth == ActionModel::Respond(download_reply(filename, file))
            &&& download_reply(filename, file).status == 200
            &&& download_reply(filename, file).body == BodyModel::File(file)
            &&& download_reply(filename, file).headers[0] == (
                "Content-Disposition"@,
                content_disposition(filename),
            )
            &&& is_header_safe(content_disposition(filename))
            &&& resolved_title(title_run) matches Ok(title) ==> filename == encoded_text(title)
                && decoded_text(filename) == title
            &&& resolved_title(title_run) is Err ==> filename == "video"@
        }),
{
    lemma_command_outputs(file, url);
    let filename = offered_name(resolved_title(title_run));
    match resolved_title(title_run) {
        Ok(title) => {
            lemma_encoded_text_is_header_safe(title);
            lemma_text_round_trip(title);
        },
        Err(_) => {
            lemma_fallback_name_is_plain();
        },
    }
    lemma_content_disposition_is_header_safe(filename);
}

/// Law: a request whose fetch fails, because the extractor could not be
/// started, exited with a code other than 0 or was killed, or because the
/// file could not be opened, ends at once: the file is removed and the
/// client gets status 500 with a fixed text that tells nothing of the cause.
pub proof fn lemma_failed_fetch_is_a_server_error(
    filename: Seq<char>,
    file: TempMediaFileModel,
    fetch_run: InvocationModel,
    cause: Seq<char>,
)
    ensures
        ({
            let running = StateModel::VideoFetching { filename, file, stage: FetchStage::Running };
            let opening = StateModel::VideoFetching { filename, file, stage: FetchStage::Opening };
            let (failed, action) = next(running, EventModel::ExtractorFinished(fetch_run));
            let (unopened, other) = next(opening, EventModel::FileOpenFailed(cause));
            &&& fetch_failure(fetch_run) matches Some(error) ==> failed == (StateModel::FetchFailed {
                error,
            }) && action == (ActionModel::Abort { file, reply: failure_reply() })
            &&& unopened.is_terminal()
            &&& other == (ActionModel::Abort { file, reply: failure_reply() })
            &&& failure_reply().status == 500
            &&& failure_reply().body == BodyModel::Text("Error downloading video stream"@)
        }),
{
}

} // verus!
