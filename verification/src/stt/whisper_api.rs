//! Services that understand OpenAI's requests: OpenAI itself, and a local whisper-server.

use vstd::prelude::*;
use vstd::string::*;

use crate::process;
use crate::text;
use crate::text::{contains, trim};

verus! {

/// A service that understands OpenAI's requests.
#[derive(Debug)]
pub struct WhisperApiProvider {
    /// The URL that transcribes.
    pub url: String,
    /// The key, or nothing where the service asks for none.
    pub api_key: String,
    /// The model that is asked for.
    pub model: String,
}

/// A request to the service.  The recording goes with it, under `filename`.
#[derive(Debug)]
pub struct WhisperRequest {
    pub url: String,
    pub filename: &'static str,
    pub model: String,
    /// The value of the `Authorization` header, if it is sent.
    pub authorization: Option<String>,
}

/// What came of a request to the service.
#[derive(Debug)]
pub enum WhisperReply {
    /// There is no answer, or it is not what it should be.
    Failed { error: String },
    /// The service refused, with this status and body.
    Refused { status: String, body: String },
    /// The service transcribed.
    Accepted { text: String },
}

/// What a `WhisperReply` says.
pub enum WhisperReplyView {
    Failed { error: Seq<char> },
    Refused { status: Seq<char>, body: Seq<char> },
    Accepted { text: Seq<char> },
}

impl View for WhisperReply {
    type V = WhisperReplyView;

    open spec fn view(&self) -> WhisperReplyView {
        match self {
            WhisperReply::Failed { error } => WhisperReplyView::Failed { error: error@ },
            WhisperReply::Refused { status, body } => WhisperReplyView::Refused {
                status: status@,
                body: body@,
            },
            WhisperReply::Accepted { text } => WhisperReplyView::Accepted { text: text@ },
        }
    }
}

/// The name under which a recording of this type is sent, which tells the service its
/// format.
pub open spec fn filename_for(mime: Seq<char>) -> Seq<char> {
    if text::occurs_in(mime, "wav"@) {
        "audio.wav"@
    } else if text::occurs_in(mime, "mp4"@) || text::occurs_in(mime, "m4a"@) {
        "audio.mp4"@
    } else {
        "audio.webm"@
    }
}

/// The value of the `Authorization` header: none without a key.
pub open spec fn bearer(api_key: Seq<char>) -> Option<Seq<char>> {
    if api_key.len() == 0 {
        None
    } else {
        Some("Bearer "@ + api_key)
    }
}

/// The transcript, or what is said where there is none.
pub open spec fn whisper_transcript(reply: WhisperReplyView) -> Result<Seq<char>, Seq<char>> {
    match reply {
        WhisperReplyView::Failed { error } => Err(error),
        WhisperReplyView::Refused { status, body } => Err(
            "Whisper API returned "@ + status + ": "@ + body,
        ),
        WhisperReplyView::Accepted { text } => Ok(text::trimmed(text)),
    }
}

impl WhisperApiProvider {
    /// A service at this URL.
    pub fn new(url: String, api_key: String, model: String) -> (r: Self)
        ensures
            r.url == url,
            r.api_key == api_key,
            r.model == model,
    {
        WhisperApiProvider { url, api_key, model }
    }

    /// The request that sends a recording of this type.
    pub fn request(&self, mime_type: &str) -> (r: WhisperRequest)
        ensures
            r.url@ == self.url@,
            r.filename@ == filename_for(mime_type@),
            r.model@ == self.model@,
            text::opt_text(r.authorization) == bearer(self.api_key@),
    {
        let filename: &'static str = if contains(mime_type, "wav") {
            "audio.wav"
        } else if contains(mime_type, "mp4") || contains(mime_type, "m4a") {
            "audio.mp4"
        } else {
            "audio.webm"
        };
        let authorization = if self.api_key.as_str().is_empty() {
            None
        } else {
            Some("Bearer ".to_owned().concat(self.api_key.as_str()))
        };
        WhisperRequest {
            url: self.url.clone(),
            filename,
            model: self.model.clone(),
            authorization,
        }
    }
}

/// Takes the transcript from what came of a request.
pub fn read_whisper_reply(reply: WhisperReply) -> (r: Result<String, String>)
    ensures
        process::result_text(r) == whisper_transcript(reply@),
{
    match reply {
        WhisperReply::Failed { error } => Err(error),
        WhisperReply::Refused { status, body } => Err(
            "Whisper API returned ".to_owned().concat(status.as_str()).concat(": ").concat(
                body.as_str(),
            ),
        ),
        WhisperReply::Accepted { text } => Ok(trim(text.as_str())),
    }
}

} // verus!
