//! The closed set of reasons a download can fail.

use vstd::prelude::*;

verus! {

/// Why a phase of a download request failed.
///
/// Title-phase errors never reach the client: the handler logs them and
/// falls back to a fixed file name. Video-phase errors end the request with
/// a generic server error.
#[derive(Clone, Debug, PartialEq, Eq)]
pub enum DownloadError {
    /// The extractor could not be launched in title mode; holds the cause.
    TitleCommand(String),
    /// The extractor could not be launched in fetch mode; holds the cause.
    VideoCommand(String),
    /// The fetch-mode process ended without an exit code (killed by a signal).
    VideoExitNoCode,
    /// The fetch-mode process exited with this non-zero code.
    VideoExitErrorCode(i32),
    /// The title-mode process ended without an exit code (killed by a signal).
    TitleExitNoCode,
    /// The title-mode process exited with this non-zero code.
    TitleExitErrorCode(i32),
    /// The finished media file could not be opened; holds the cause.
    TempFileOpen(String),
    /// The title-mode process printed bytes that are not valid UTF-8.
    FromUtf8,
}

/// Mathematical model of a [`DownloadError`]: text is a sequence of characters.
pub enum DownloadErrorModel {
    TitleCommand(Seq<char>),
    VideoCommand(Seq<char>),
    VideoExitNoCode,
    VideoExitErrorCode(i32),
    TitleExitNoCode,
    TitleExitErrorCode(i32),
    TempFileOpen(Seq<char>),
    FromUtf8,
}

impl View for DownloadError {
    type V = DownloadErrorModel;

    open spec fn view(&self) -> DownloadErrorModel {
        match self {
            DownloadError::TitleCommand(cause) => DownloadErrorModel::TitleCommand(cause@),
            DownloadError::VideoCommand(cause) => DownloadErrorModel::VideoCommand(cause@),
            DownloadError::VideoExitNoCode => DownloadErrorModel::VideoExitNoCode,
            DownloadError::VideoExitErrorCode(code) => DownloadErrorModel::VideoExitErrorCode(*code),
            DownloadError::TitleExitNoCode => DownloadErrorModel::TitleExitNoCode,
            DownloadError::TitleExitErrorCode(code) => DownloadErrorModel::TitleExitErrorCode(*code),
            DownloadError::TempFileOpen(cause) => DownloadErrorModel::TempFileOpen(cause@),
            DownloadError::FromUtf8 => DownloadErrorModel::FromUtf8,
        }
    }
}

impl DownloadErrorModel {
    /// Whether the error arose while resolving the title.
    pub open spec fn in_title_phase(self) -> bool {
        self is TitleCommand || self is TitleExitNoCode || self is TitleExitErrorCode
            || self is FromUtf8
    }
}

impl DownloadError {
    /// Whether the error arose while resolving the title, as opposed to
    /// fetching the video.
    pub fn in_title_phase(&self) -> (b: bool)
        ensures
            b == self@.in_title_phase(),
    {
        match self {
            DownloadError::TitleCommand(_) => true,
            DownloadError::TitleExitNoCode => true,
            DownloadError::TitleExitErrorCode(_) => true,
            DownloadError::FromUtf8 => true,
            _ => false,
        }
    }
}

} // verus!
