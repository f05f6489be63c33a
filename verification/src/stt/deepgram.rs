//! Deepgram, which takes a recording as it is.

use vstd::prelude::*;
use vstd::string::*;

use crate::process;
use crate::text;
use crate::text::trim;

verus! {

/// Where Deepgram transcribes.
pub const DEEPGRAM_URL: &'static str =
    "https://api.deepgram.com/v1/listen?model=nova-3&smart_format=true";

/// Deepgram.
#[derive(Debug)]
pub struct DeepgramProvider {
    /// The key.
    pub api_key: String,
}

/// One reading of what was said.
#[derive(Debug)]
pub struct DgAlternative {
    pub transcript: String,
}

/// What was said in one channel of the recording, the best reading first.
#[derive(Debug)]
pub struct DgChannel {
    pub alternatives: Vec<DgAlternative>,
}

/// What came of a request to Deepgram.
#[derive(Debug)]
pub enum DeepgramReply {
    /// There is no answer, or it is not what it should be.
    Failed { error: String },
    /// Deepgram refused, with this status and body.
    Refused { status: String, body: String },
    /// Deepgram transcribed the channels.
    Accepted { channels: Vec<DgChannel> },
}

/// The best reading of the first channel, or nothing.
pub open spec fn best_reading(channels: Seq<DgChannel>) -> Seq<char> {
    if channels.len() > 0 && channels[0].alternatives@.len() > 0 {
        text::trimmed(channels[0].alternatives@[0].transcript@)
    } else {
        Seq::empty()
    }
}

/// The transcript, or what is said where there is none.
pub open spec fn deepgram_transcript(reply: DeepgramReply) -> Result<Seq<char>, Seq<char>> {
    match reply {
        DeepgramReply::Failed { error } => Err(error@),
        DeepgramReply::Refused { status, body } => Err(
            "Deepgram API returned "@ + status@ + ": "@ + body@,
        ),
        DeepgramReply::Accepted { channels } => Ok(best_reading(channels@)),
    }
}

/// The value of the header that gives Deepgram this key.
pub open spec fn token(api_key: Seq<char>) -> Seq<char> {
    "Token "@ + api_key
}

impl DeepgramProvider {
    /// Deepgram with this key.
    pub fn new(api_key: String) -> (r: Self)
        ensures
            r.api_key == api_key,
    {
        DeepgramProvider { api_key }
    }

    /// The value of the `Authorization` header.
    pub fn authorization(&self) -> (r: String)
        ensures
            r@ == token(self.api_key@),
    {
        "Token ".to_owned().concat(self.api_key.as_str())
    }
}

/// Takes the transcript from what came of a request.
pub fn read_deepgram_reply(reply: DeepgramReply) -> (r: Result<String, String>)
    ensures
        process::result_text(r) == deepgram_transcript(reply),
{
    match reply {
        DeepgramReply::Failed { error } => Err(error),
        DeepgramReply::Refused { status, body } => Err(
            "Deepgram API returned ".to_owned().concat(status.as_str()).concat(": ").concat(
                body.as_str(),
            ),
        ),
        DeepgramReply::Accepted { channels } => {
            if channels.len() > 0 && channels[0].alternatives.len() > 0 {
                Ok(trim(channels[0].alternatives[0].transcript.as_str()))
            } else {
                Ok(String::new())
            }
        },
    }
}

} // verus!
