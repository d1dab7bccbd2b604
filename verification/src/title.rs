//! Title resolution: from what the extractor printed in title mode to the
//! file name offered to the client.

use vstd::prelude::*;
use vstd::utf8::{decode_utf8, encode_utf8, valid_utf8};
use crate::encoding::{encoded_text, is_header_safe, percent_encode};
use crate::error::{DownloadError, DownloadErrorModel};
use crate::extractor::{check_exit, exit_failure, Invocation, InvocationModel, Mode};

verus! {

/// What `str::trim` returns for a text: the text without the whitespace at
/// its start and at its end, whitespace being the characters with the Unicode
/// property `White_Space`.
pub uninterp spec fn trimmed(text: Seq<char>) -> Seq<char>;

/// The file name used when no title could be resolved.
pub open spec fn fallback_name() -> Seq<char> {
    "video"@
}

/// The title that a title-mode run of the extractor yields, or the error it
/// stands for. A launch failure comes first, then the exit status, then the
/// decoding of the output.
pub open spec fn resolved_title(invocation: InvocationModel) -> Result<
    Seq<char>,
    DownloadErrorModel,
> {
    match invocation {
        InvocationModel::NotStarted(cause) => Err(DownloadErrorModel::TitleCommand(cause)),
        InvocationModel::Exited(result) => match exit_failure(Mode::Title, result.exit_status) {
            Some(error) => Err(error),
            None => if valid_utf8(result.stdout) {
                Ok(trimmed(decode_utf8(result.stdout)))
            } else {
                Err(DownloadErrorModel::FromUtf8)
            },
        },
    }
}

/// The model of a title or the error that took its place.
pub open spec fn title_model(title: Result<String, DownloadError>) -> Result<
    Seq<char>,
    DownloadErrorModel,
> {
    match title {
        Ok(text) => Ok(text@),
        Err(error) => Err(error@),
    }
}

/// The file name offered to the client: the percent-encoded title, or the
/// fallback name where there is no title.
pub open spec fn offered_name(title: Result<Seq<char>, DownloadErrorModel>) -> Seq<char> {
    match title {
        Ok(text) => encoded_text(text),
        Err(_) => fallback_name(),
    }
}

/// Calls `String::from_utf8`, which accepts exactly the byte strings that are
/// valid UTF-8 and then returns a string made of the very same bytes.
#[verifier::external_body]
fn text_from_utf8(bytes: Vec<u8>) -> (text: Option<String>)
    ensures
        text is Some <==> valid_utf8(bytes@),
        text matches Some(decoded) ==> encode_utf8(decoded@) == bytes@,
{
    String::from_utf8(bytes).ok()
}

/// Calls `str::trim`. The contract only gives the result its name: it is a
/// function of the text alone.
#[verifier::external_body]
fn trim(text: &str) -> (inner: &str)
    ensures
        inner@ == trimmed(text@),
{
    text.trim()
}

/// Resolves the title from a title-mode run of the extractor.
pub fn get_video_title(invocation: Invocation) -> (title: Result<String, DownloadError>)
    ensures
        title_model(title) == resolved_title(invocation@),
{
    match invocation {
        Invocation::NotStarted(cause) => Err(DownloadError::TitleCommand(cause)),
        Invocation::Exited(result) => {
            match check_exit(Mode::Title, result.exit_status) {
                Err(error) => Err(error),
                Ok(_) => {
                    match text_from_utf8(result.stdout) {
                        None => Err(DownloadError::FromUtf8),
                        Some(decoded) => {
                            proof {
                                vstd::utf8::encode_utf8_decode_utf8(decoded@);
                            }
                            Ok(trim(decoded.as_str()).to_owned())
                        },
                    }
                },
            }
        },
    }
}

/// Chooses the file name offered to the client. A failed title resolution
/// never fails the request: the fallback name takes the title's place.
pub fn download_filename(title: &Result<String, DownloadError>) -> (name: String)
    ensures
        name@ == offered_name(title_model(*title)),
        title is Err ==> name@ == "video"@,
        is_header_safe(name@),
{
    match title {
        Ok(text) => percent_encode(text.as_str()),
        Err(_) => {
            proof {
                lemma_fallback_name_is_plain();
            }
            "video".to_owned()
        },
    }
}

/// The fallback name is plain ASCII that needs no encoding.
pub proof fn lemma_fallback_name_is_plain()
    ensures
        is_header_safe(fallback_name()),
        encoded_text(fallback_name()) == fallback_name(),
{
    reveal_strlit("video");
    let name = fallback_name();
    assert(name =~= seq!['v', 'i', 'd', 'e', 'o']);
    assert(vstd::utf8::is_ascii_chars(name));
    vstd::utf8::is_ascii_chars_encode_utf8(name);
    let bytes = encode_utf8(name);
    assert(bytes =~= seq![0x76u8, 0x69u8, 0x64u8, 0x65u8, 0x6fu8]);
    reveal_with_fuel(crate::encoding::percent_encoded, 6);
    assert(crate::encoding::percent_encoded(bytes) =~= bytes);
    assert(encoded_text(name) =~= name);
}

} // verus!
