//! Temporary media files: where the extractor writes a download before it is
//! streamed to the client.
//!
//! A file is a directory and a name. The directory is the system's temporary
//! directory; the name holds a random token, which is all that keeps
//! concurrent requests apart.

use std::path::PathBuf;
use vstd::prelude::*;
use vstd::string::StringExecFns;

verus! {

/// `std::path::PathBuf`, carried through as an opaque value.
#[verifier::external_type_specification]
#[verifier::external_body]
pub struct ExPathBuf(PathBuf);

/// Whether a character is a lower-case hexadecimal digit.
pub open spec fn is_lower_hex(c: char) -> bool {
    ('0' <= c <= '9') || ('a' <= c <= 'f')
}

/// The shape of a random token: a version 4 UUID in its hyphenated
/// lower-case form, such as `67e55044-10b1-426f-9247-bb680e5fe0c8`.
pub open spec fn is_token(token: Seq<char>) -> bool {
    &&& token.len() == 36
    &&& forall|i: int|
        0 <= i < 36 ==> if i == 8 || i == 13 || i == 18 || i == 23 {
            #[trigger] token[i] == '-'
        } else {
            is_lower_hex(token[i])
        }
    &&& token[14] == '4'
    &&& (token[19] == '8' || token[19] == '9' || token[19] == 'a' || token[19] == 'b')
}

/// The name of the temporary file made for a token.
pub open spec fn temp_file_name(token: Seq<char>) -> Seq<char> {
    "ytdlp-web-"@ + token + ".mp4"@
}

/// Whether a text names a single entry of a directory: it is not empty, is
/// neither `.` nor `..`, and holds no path separator and no NUL.
pub open spec fn is_entry_name(name: Seq<char>) -> bool {
    &&& name.len() > 0
    &&& name != seq!['.']
    &&& name != seq!['.', '.']
    &&& forall|i: int|
        0 <= i < name.len() ==> #[trigger] name[i] != '/' && name[i] != '\\' && name[i] != '\0'
}

/// A temporary media file of one request.
#[derive(Clone, Debug, PartialEq, Eq)]
pub struct TempMediaFile {
    /// The directory the file lives in.
    pub directory: PathBuf,
    /// The name of the file inside that directory.
    pub name: String,
}

/// Mathematical model of a [`TempMediaFile`].
pub struct TempMediaFileModel {
    pub directory: PathBuf,
    pub name: Seq<char>,
}

impl View for TempMediaFile {
    type V = TempMediaFileModel;

    open spec fn view(&self) -> TempMediaFileModel {
        TempMediaFileModel { directory: self.directory, name: self.name@ }
    }
}

impl TempMediaFileModel {
    /// The full path of the file: its name joined to its directory.
    pub open spec fn path(self) -> PathBuf {
        joined(self.directory, self.name)
    }
}

/// Calls `tempfile::env::temp_dir`, which returns the directory for temporary
/// files that the process is configured with. The answer depends on the
/// environment, so nothing is claimed of it.
#[verifier::external_body]
fn system_temp_dir() -> PathBuf {
    tempfile::env::temp_dir()
}

/// Calls `Uuid::new_v4` and writes the UUID out with its `Display` impl, which
/// gives the hyphenated lower-case form. The contract claims that shape, with
/// the version digit 4 and a variant digit of 8, 9, a or b; the other digits
/// are random. The call stops the program if the system cannot supply
/// random bytes.
#[verifier::external_body]
fn fresh_token() -> (token: String)
    ensures
        is_token(token@),
{
    uuid::Uuid::new_v4().to_string()
}

/// `PathBuf::clone` returns an equal path.
pub assume_specification[ <PathBuf as Clone>::clone ](path: &PathBuf) -> (copy: PathBuf)
    ensures
        copy == *path,
;

/// What `Path::join` returns for a directory and a name: the path that
/// leads to that name inside the directory.
pub uninterp spec fn joined(directory: PathBuf, name: Seq<char>) -> PathBuf;

/// Calls `Path::join`. Paths are opaque here, so the contract only gives the
/// result its name: it is a function of the directory and the name alone.
#[verifier::external_body]
fn join(directory: &PathBuf, name: &str) -> (path: PathBuf)
    ensures
        path == joined(*directory, name@),
{
    directory.join(name)
}

impl TempMediaFile {
    /// The temporary file for a token in a directory.
    pub fn new(directory: PathBuf, token: &str) -> (file: TempMediaFile)
        ensures
            file@ == (TempMediaFileModel { directory, name: temp_file_name(token@) }),
    {
        let mut name = String::from_str("ytdlp-web-");
        name.append(token);
        name.append(".mp4");
        TempMediaFile { directory, name }
    }

    /// Picks a fresh temporary file in the system's temporary directory.
    /// Nothing is created on disk, and no check is made that the name is
    /// free: the random token is what avoids collisions.
    pub fn allocate() -> (file: TempMediaFile)
        ensures
            exists|token: Seq<char>|
                is_token(token) && file.name@ == #[trigger] temp_file_name(token),
            is_entry_name(file.name@),
    {
        let directory = system_temp_dir();
        let token = fresh_token();
        proof {
            lemma_temp_file_name_is_entry_name(token@);
        }
        TempMediaFile::new(directory, token.as_str())
    }

    /// The full path of the file: its name joined to its directory. The
    /// same file always has the same path, so what the extractor writes is
    /// what is later opened and removed.
    pub fn path(&self) -> (path: PathBuf)
        ensures
            path == self@.path(),
    {
        join(&self.directory, self.name.as_str())
    }

    /// A second handle on the same file.
    pub fn duplicate(&self) -> (copy: TempMediaFile)
        ensures
            copy@ == self@,
    {
        TempMediaFile { directory: self.directory.clone(), name: self.name.clone() }
    }
}

/// Law: different tokens give different file names, so two requests share a
/// file name only if they drew the same token.
pub proof fn lemma_temp_file_name_injective(first: Seq<char>, second: Seq<char>)
    requires
        temp_file_name(first) == temp_file_name(second),
    ensures
        first == second,
{
    let prefix = "ytdlp-web-"@;
    let suffix = ".mp4"@;
    let a = temp_file_name(first);
    let b = temp_file_name(second);
    assert(a.len() == prefix.len() + first.len() + suffix.len());
    assert(b.len() == prefix.len() + second.len() + suffix.len());
    assert forall|i: int| 0 <= i < first.len() implies first[i] == second[i] by {
        assert(a[prefix.len() + i] == first[i]);
        assert(b[prefix.len() + i] == second[i]);
    }
    assert(first =~= second);
}

/// Law: the file name made for a token names a single directory entry, so
/// the file lies directly in its directory.
pub proof fn lemma_temp_file_name_is_entry_name(token: Seq<char>)
    requires
        is_token(token),
    ensures
        is_entry_name(temp_file_name(token)),
        temp_file_name(token).len() == 50,
{
    reveal_strlit("ytdlp-web-");
    reveal_strlit(".mp4");
    let prefix = "ytdlp-web-"@;
    let suffix = ".mp4"@;
    let name = temp_file_name(token);
    assert(name.len() == 50);
    assert forall|i: int| 0 <= i < name.len() implies #[trigger] name[i] != '/' && name[i] != '\\'
        && name[i] != '\0' by {
        if i < 10 {
            assert(name[i] == prefix[i]);
        } else if i < 46 {
            assert(name[i] == token[i - 10]);
            assert(token[i - 10] == '-' || is_lower_hex(token[i - 10]));
        } else {
            assert(name[i] == suffix[i - 46]);
        }
    }
    assert(name != seq!['.']) by {
        assert(seq!['.'].len() == 1);
    }
    assert(name != seq!['.', '.']) by {
        assert(seq!['.', '.'].len() == 2);
    }
}

} // verus!
