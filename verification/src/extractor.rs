//! The process boundary to the external extractor: what it is asked to do and
//! how the way it ended is judged.

use vstd::prelude::*;
use vstd::string::StringExecFns;
use crate::error::{DownloadError, DownloadErrorModel};
use crate::storage::{TempMediaFile, TempMediaFileModel};

verus! {

/// Which of its two jobs the extractor was started for.
#[derive(Clone, Copy, Debug, PartialEq, Eq, Structural)]
pub enum Mode {
    /// Print the file name the download would get; nothing is downloaded.
    Title,
    /// Download the media and write it to a given path.
    Fetch,
}

/// What one finished run of the extractor left behind.
#[derive(Clone, Debug, PartialEq, Eq)]
pub struct ProcessResult {
    /// The exit code, or `None` when a signal ended the process.
    pub exit_status: Option<i32>,
    /// Everything the process wrote to standard output.
    pub stdout: Vec<u8>,
    /// Everything the process wrote to standard error.
    pub stderr: Vec<u8>,
}

/// Mathematical model of a [`ProcessResult`].
pub struct ProcessResultModel {
    pub exit_status: Option<i32>,
    pub stdout: Seq<u8>,
    pub stderr: Seq<u8>,
}

impl View for ProcessResult {
    type V = ProcessResultModel;

    open spec fn view(&self) -> ProcessResultModel {
        ProcessResultModel {
            exit_status: self.exit_status,
            stdout: self.stdout@,
            stderr: self.stderr@,
        }
    }
}

/// How an attempt to run the extractor ended.
#[derive(Clone, Debug, PartialEq, Eq)]
pub enum Invocation {
    /// The process ran and ended.
    Exited(ProcessResult),
    /// The process could not be started; holds the cause.
    NotStarted(String),
}

/// Mathematical model of an [`Invocation`].
pub enum InvocationModel {
    Exited(ProcessResultModel),
    NotStarted(Seq<char>),
}

impl View for Invocation {
    type V = InvocationModel;

    open spec fn view(&self) -> InvocationModel {
        match self {
            Invocation::Exited(result) => InvocationModel::Exited(result@),
            Invocation::NotStarted(cause) => InvocationModel::NotStarted(cause@),
        }
    }
}

/// The error, if any, that an exit status stands for in the given mode:
/// code 0 is success, any other code and a missing code are failures.
pub open spec fn exit_failure(mode: Mode, status: Option<i32>) -> Option<DownloadErrorModel> {
    match status {
        Some(code) => if code == 0 {
            None
        } else {
            Some(
                match mode {
                    Mode::Title => DownloadErrorModel::TitleExitErrorCode(code),
                    Mode::Fetch => DownloadErrorModel::VideoExitErrorCode(code),
                },
            )
        },
        None => Some(
            match mode {
                Mode::Title => DownloadErrorModel::TitleExitNoCode,
                Mode::Fetch => DownloadErrorModel::VideoExitNoCode,
            },
        ),
    }
}

/// Judges how an extractor process ended.
pub fn check_exit(mode: Mode, status: Option<i32>) -> (verdict: Result<(), DownloadError>)
    ensures
        match verdict {
            Ok(_) => exit_failure(mode, status) is None,
            Err(error) => exit_failure(mode, status) == Some(error@),
        },
{
    match status {
        Some(code) => {
            if code == 0 {
                Ok(())
            } else {
                match mode {
                    Mode::Title => Err(DownloadError::TitleExitErrorCode(code)),
                    Mode::Fetch => Err(DownloadError::VideoExitErrorCode(code)),
                }
            }
        },
        None => match mode {
            Mode::Title => Err(DownloadError::TitleExitNoCode),
            Mode::Fetch => Err(DownloadError::VideoExitNoCode),
        },
    }
}

/// The error, if any, that a fetch-mode run of the extractor stands for.
/// What the process printed plays no part: only the launch and the exit
/// status count.
pub open spec fn fetch_failure(invocation: InvocationModel) -> Option<DownloadErrorModel> {
    match invocation {
        InvocationModel::NotStarted(cause) => Some(DownloadErrorModel::VideoCommand(cause)),
        InvocationModel::Exited(result) => exit_failure(Mode::Fetch, result.exit_status),
    }
}

/// Judges a fetch-mode run of the extractor.
pub fn check_fetch(invocation: Invocation) -> (verdict: Result<(), DownloadError>)
    ensures
        match verdict {
            Ok(_) => fetch_failure(invocation@) is None,
            Err(error) => fetch_failure(invocation@) == Some(error@),
        },
{
    match invocation {
        Invocation::NotStarted(cause) => Err(DownloadError::VideoCommand(cause)),
        Invocation::Exited(result) => check_exit(Mode::Fetch, result.exit_status),
    }
}

/// One argument on the extractor's command line.
#[derive(Clone, Debug, PartialEq, Eq)]
pub enum Argument {
    /// A piece of text, passed as it is.
    Text(String),
    /// The path of this file.
    Output(TempMediaFile),
}

/// Mathematical model of an [`Argument`].
pub enum ArgumentModel {
    Text(Seq<char>),
    Output(TempMediaFileModel),
}

impl View for Argument {
    type V = ArgumentModel;

    open spec fn view(&self) -> ArgumentModel {
        match self {
            Argument::Text(text) => ArgumentModel::Text(text@),
            Argument::Output(file) => ArgumentModel::Output(file@),
        }
    }
}

impl DeepView for Argument {
    type V = ArgumentModel;

    open spec fn deep_view(&self) -> ArgumentModel {
        self@
    }
}

/// A command line: the program to run and its arguments, in order.
#[derive(Clone, Debug, PartialEq, Eq)]
pub struct Command {
    pub program: String,
    pub arguments: Vec<Argument>,
}

/// Mathematical model of a [`Command`].
pub struct CommandModel {
    pub program: Seq<char>,
    pub arguments: Seq<ArgumentModel>,
}

impl View for Command {
    type V = CommandModel;

    open spec fn view(&self) -> CommandModel {
        CommandModel { program: self.program@, arguments: self.arguments.deep_view() }
    }
}

/// The arguments both modes share: prefer the best resolution, then `mp4`
/// over `m4a`, and deliver an `mp4` container.
pub open spec fn preference_arguments() -> Seq<ArgumentModel> {
    seq![
        ArgumentModel::Text("-S"@),
        ArgumentModel::Text("res,ext:mp4:m4a"@),
        ArgumentModel::Text("--recode"@),
        ArgumentModel::Text("mp4"@),
    ]
}

/// The command line that makes the extractor print the file name it would
/// give the download of `url`, without downloading anything.
pub open spec fn title_command(url: Seq<char>) -> CommandModel {
    CommandModel {
        program: "yt-dlp"@,
        arguments: preference_arguments() + seq![
            ArgumentModel::Text("--print"@),
            ArgumentModel::Text("filename"@),
            ArgumentModel::Text(url),
        ],
    }
}

/// The command line that makes the extractor download `url` into `file`.
pub open spec fn fetch_command(file: TempMediaFileModel, url: Seq<char>) -> CommandModel {
    CommandModel {
        program: "yt-dlp"@,
        arguments: preference_arguments() + seq![
            ArgumentModel::Text("-o"@),
            ArgumentModel::Output(file),
            ArgumentModel::Text(url),
        ],
    }
}

/// The first file named among some arguments, if any.
pub open spec fn first_output(arguments: Seq<ArgumentModel>) -> Option<TempMediaFileModel>
    decreases arguments.len(),
{
    if arguments.len() == 0 {
        None
    } else {
        match arguments[0] {
            ArgumentModel::Output(file) => Some(file),
            ArgumentModel::Text(_) => first_output(arguments.drop_first()),
        }
    }
}

impl CommandModel {
    /// The file that running the command writes, if it names one.
    pub open spec fn output(self) -> Option<TempMediaFileModel> {
        first_output(self.arguments)
    }
}

/// A title-mode command writes no file; a fetch-mode command writes the
/// file it was made for.
pub proof fn lemma_command_outputs(file: TempMediaFileModel, url: Seq<char>)
    ensures
        title_command(url).output() is None,
        fetch_command(file, url).output() == Some(file),
{
    let title = title_command(url).arguments;
    let fetch = fetch_command(file, url).arguments;
    assert(title.len() == 7 && fetch.len() == 7);
    assert forall|i: int| 0 <= i < 7 implies #[trigger] title[i] is Text by {}
    assert forall|i: int| 0 <= i < 5 implies #[trigger] fetch[i] is Text by {}
    assert(fetch[5] == ArgumentModel::Output(file));
    lemma_first_output_skips_text(title, 7);
    lemma_first_output_skips_text(fetch, 5);
    assert(first_output(title.skip(7)) is None);
    assert(fetch.skip(5)[0] == fetch[5]);
}

/// Leading text arguments do not matter to [`first_output`].
proof fn lemma_first_output_skips_text(arguments: Seq<ArgumentModel>, count: int)
    requires
        0 <= count <= arguments.len(),
        forall|i: int| 0 <= i < count ==> #[trigger] arguments[i] is Text,
    ensures
        first_output(arguments) == first_output(arguments.skip(count)),
    decreases count,
{
    if count == 0 {
        assert(arguments.skip(0) =~= arguments);
    } else {
        let rest = arguments.drop_first();
        assert(arguments[0] is Text);
        assert forall|i: int| 0 <= i < count - 1 implies #[trigger] rest[i] is Text by {
            assert(rest[i] == arguments[i + 1]);
        }
        lemma_first_output_skips_text(rest, count - 1);
        assert(rest.skip(count - 1) =~= arguments.skip(count));
    }
}

/// The command line with the shared preference arguments and nothing else.
fn preference_command() -> (command: Command)
    ensures
        command@ == (CommandModel { program: "yt-dlp"@, arguments: preference_arguments() }),
{
    let mut arguments: Vec<Argument> = Vec::new();
    arguments.push(Argument::Text(String::from_str("-S")));
    arguments.push(Argument::Text(String::from_str("res,ext:mp4:m4a")));
    arguments.push(Argument::Text(String::from_str("--recode")));
    arguments.push(Argument::Text(String::from_str("mp4")));
    let command = Command { program: String::from_str("yt-dlp"), arguments };
    assert(command@.arguments =~= preference_arguments());
    command
}

impl Command {
    /// The title-mode command line for a URL.
    pub fn for_title(url: &str) -> (command: Command)
        ensures
            command@ == title_command(url@),
    {
        let mut command = preference_command();
        command.arguments.push(Argument::Text(String::from_str("--print")));
        command.arguments.push(Argument::Text(String::from_str("filename")));
        command.arguments.push(Argument::Text(String::from_str(url)));
        assert(command@.arguments =~= title_command(url@).arguments);
        command
    }

    /// The fetch-mode command line for a URL and the file to write.
    pub fn for_fetch(file: TempMediaFile, url: &str) -> (command: Command)
        ensures
            command@ == fetch_command(file@, url@),
    {
        let mut command = preference_command();
        command.arguments.push(Argument::Text(String::from_str("-o")));
        command.arguments.push(Argument::Output(file));
        command.arguments.push(Argument::Text(String::from_str(url)));
        assert(command@.arguments =~= fetch_command(file@, url@).arguments);
        command
    }
}

} // verus!
