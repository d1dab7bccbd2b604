//! The replies the gateway gives: status, headers and body, as plain values
//! for the HTTP layer to send.

use vstd::prelude::*;
use vstd::string::StringExecFns;
use crate::encoding::is_header_safe;
use crate::storage::{TempMediaFile, TempMediaFileModel};

verus! {

/// The body of a reply.
#[derive(Clone, Debug, PartialEq, Eq)]
pub enum Body {
    /// A short plain text.
    Text(String),
    /// The bytes of this file, streamed in order from its start to its end.
    File(TempMediaFile),
}

/// Mathematical model of a [`Body`].
pub enum BodyModel {
    Text(Seq<char>),
    File(TempMediaFileModel),
}

impl View for Body {
    type V = BodyModel;

    open spec fn view(&self) -> BodyModel {
        match self {
            Body::Text(text) => BodyModel::Text(text@),
            Body::File(file) => BodyModel::File(file@),
        }
    }
}

/// A reply to a client.
#[derive(Clone, Debug, PartialEq, Eq)]
pub struct Reply {
    /// The HTTP status code.
    pub status: u16,
    /// Header names and values, in the order they are set.
    pub headers: Vec<(String, String)>,
    pub body: Body,
}

/// Mathematical model of a [`Reply`].
pub struct ReplyModel {
    pub status: u16,
    pub headers: Seq<(Seq<char>, Seq<char>)>,
    pub body: BodyModel,
}

impl View for Reply {
    type V = ReplyModel;

    open spec fn view(&self) -> ReplyModel {
        ReplyModel { status: self.status, headers: self.headers.deep_view(), body: self.body@ }
    }
}

/// The reply of the health endpoint: status 200 and the body `OK`.
pub open spec fn health_reply() -> ReplyModel {
    ReplyModel { status: 200, headers: Seq::empty(), body: BodyModel::Text("OK"@) }
}

/// The reply to a request whose video could not be fetched: status 500 and
/// one fixed sentence, whatever went wrong.
pub open spec fn failure_reply() -> ReplyModel {
    ReplyModel {
        status: 500,
        headers: Seq::empty(),
        body: BodyModel::Text("Error downloading video stream"@),
    }
}

/// The value of the `Content-Disposition` header for a file name.
pub open spec fn content_disposition(filename: Seq<char>) -> Seq<char> {
    "attachment; filename="@ + filename
}

/// The reply that delivers a fetched file under a file name: status 200, the
/// file offered as an attachment of that name, the body its raw bytes.
pub open spec fn download_reply(filename: Seq<char>, file: TempMediaFileModel) -> ReplyModel {
    ReplyModel {
        status: 200,
        headers: seq![
            ("Content-Disposition"@, content_disposition(filename)),
            ("Content-Type"@, "application/octet-stream"@),
        ],
        body: BodyModel::File(file),
    }
}

/// Answers the health endpoint. The reply is always the same: it depends on
/// nothing, least of all on the extractor.
pub fn healthcheck() -> (reply: Reply)
    ensures
        reply@ == health_reply(),
{
    let reply = Reply { status: 200, headers: Vec::new(), body: Body::Text(String::from_str("OK")) };
    assert(reply@.headers =~= Seq::empty());
    reply
}

impl Reply {
    /// The reply to a request whose video could not be fetched.
    pub fn failure() -> (reply: Reply)
        ensures
            reply@ == failure_reply(),
    {
        let reply = Reply {
            status: 500,
            headers: Vec::new(),
            body: Body::Text(String::from_str("Error downloading video stream")),
        };
        assert(reply@.headers =~= Seq::empty());
        reply
    }

    /// The reply that delivers `file` as an attachment named `filename`.
    pub fn download(filename: &str, file: TempMediaFile) -> (reply: Reply)
        ensures
            reply@ == download_reply(filename@, file@),
    {
        let mut disposition = String::from_str("attachment; filename=");
        disposition.append(filename);
        let mut headers: Vec<(String, String)> = Vec::new();
        headers.push((String::from_str("Content-Disposition"), disposition));
        headers.push(
            (String::from_str("Content-Type"), String::from_str("application/octet-stream")),
        );
        let reply = Reply { status: 200, headers, body: Body::File(file) };
        assert(reply@.headers =~= download_reply(filename@, file@).headers);
        reply
    }
}

/// Law: for a file name that is safe in a header, the whole
/// `Content-Disposition` value is safe in a header.
pub proof fn lemma_content_disposition_is_header_safe(filename: Seq<char>)
    requires
        is_header_safe(filename),
    ensures
        is_header_safe(content_disposition(filename)),
{
    reveal_strlit("attachment; filename=");
    let lead = "attachment; filename="@;
    let value = content_disposition(filename);
    assert forall|i: int| 0 <= i < value.len() implies 0x20 <= #[trigger] (value[i] as u32)
        <= 0x7e by {
        if i < lead.len() {
            assert(value[i] == lead[i]);
        } else {
            assert(value[i] == filename[i - lead.len()]);
            assert(0x20 <= (filename[i - lead.len()] as u32) <= 0x7e);
        }
    }
}

} // verus!
