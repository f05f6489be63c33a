//! The request that turns recorded speech into text.
//!
//! The upload comes in parts: `audio`, the recording, and `password`.  When all have come,
//! `ffmpeg` makes the recording a WAV file, and the provider transcribes that.  The
//! answer is a JSON object with the `transcript`, or with the `error`.

use vstd::prelude::*;
use vstd::string::*;

use crate::auth;
use crate::auth::is_password_valid;
use crate::json;
use crate::json::write_object;
use crate::process;
use crate::reply::{Reply, ReplyView};
use crate::state::AppState;
use crate::text;
use crate::text::{decimal, from_utf8_lossy, text_eq};

verus! {

/// The number of bytes that a recording may have.
pub const MAX_AUDIO_BYTES: usize = 25 * 1024 * 1024;

/// The type of a recording that has none of its own.
pub const DEFAULT_MIME: &'static str = "audio/webm";

/// The type of what `ffmpeg` makes.
pub const WAV_MIME: &'static str = "audio/wav";

/// What is said of a recording that is too long.
pub const AUDIO_TOO_LARGE: &'static str = "Audio upload exceeds the 25 MB limit.";

/// What is said of a recording that breaks off.
pub const AUDIO_UNREADABLE: &'static str = "Failed to read audio field.";

/// What is said where there is no recording.
pub const AUDIO_MISSING: &'static str = "Missing or empty `audio` field in multipart upload.";

// ── The upload ──────────────────────────────────────────────────────────────

/// A part of the upload.
#[derive(Debug)]
pub struct Part {
    /// The name of the part, which is empty where it has none.
    pub name: String,
    /// The type of its content, if it says one.
    pub content_type: Option<String>,
    /// Its content.  `None`: it could not be read.
    pub data: Option<Vec<u8>>,
}

/// What a `Part` says.
pub struct PartView {
    pub name: Seq<char>,
    pub content_type: Option<Seq<char>>,
    pub data: Option<Seq<u8>>,
}

/// The view of optional bytes.
pub open spec fn opt_bytes(o: Option<Vec<u8>>) -> Option<Seq<u8>> {
    match o {
        Some(v) => Some(v@),
        None => None,
    }
}

impl View for Part {
    type V = PartView;

    open spec fn view(&self) -> PartView {
        PartView {
            name: self.name@,
            content_type: text::opt_text(self.content_type),
            data: opt_bytes(self.data),
        }
    }
}

/// What has come of an upload.
#[derive(Debug)]
pub struct AudioUpload {
    /// The recording.
    pub audio: Option<Vec<u8>>,
    /// The type of the recording.
    pub mime: String,
    /// The password.
    pub password: String,
}

/// What an `AudioUpload` says.
pub struct UploadView {
    pub audio: Option<Seq<u8>>,
    pub mime: Seq<char>,
    pub password: Seq<char>,
}

impl View for AudioUpload {
    type V = UploadView;

    open spec fn view(&self) -> UploadView {
        UploadView { audio: opt_bytes(self.audio), mime: self.mime@, password: self.password@ }
    }
}

/// The answer that tells of an error.
pub open spec fn error_answer(status: u16, message: Seq<char>) -> ReplyView {
    ReplyView::Json { status, body: json::json_object("error"@, message) }
}

/// The answer that gives the transcript.
pub open spec fn transcript_answer(transcript: Seq<char>) -> ReplyView {
    ReplyView::Json { status: 200, body: json::json_object("transcript"@, transcript) }
}

fn error_response(status: u16, message: &str) -> (r: Reply)
    ensures
        r@ == error_answer(status, message@),
{
    Reply::Json { status, body: write_object("error", message) }
}

/// An upload with one more part.
pub open spec fn with_part(upload: UploadView, part: PartView) -> Result<UploadView, ReplyView> {
    if part.name == "audio"@ {
        match part.data {
            Some(data) => if data.len() > MAX_AUDIO_BYTES {
                Err(error_answer(413, AUDIO_TOO_LARGE@))
            } else {
                Ok(
                    UploadView {
                        audio: Some(data),
                        mime: match part.content_type {
                            Some(mime) => mime,
                            None => upload.mime,
                        },
                        password: upload.password,
                    },
                )
            },
            None => Err(error_answer(400, AUDIO_UNREADABLE@)),
        }
    } else if part.name == "password"@ {
        match part.data {
            Some(data) => Ok(UploadView { password: text::lossy_text(data), ..upload }),
            None => Ok(upload),
        }
    } else {
        Ok(upload)
    }
}

/// The view of an upload, or of the answer to one that is refused.
pub open spec fn upload_view(r: Result<AudioUpload, Reply>) -> Result<UploadView, ReplyView> {
    match r {
        Ok(upload) => Ok(upload@),
        Err(reply) => Err(reply@),
    }
}

fn receive(upload: AudioUpload, part: Part) -> (r: Result<AudioUpload, Reply>)
    ensures
        upload_view(r) == with_part(upload@, part@),
{
    let mut upload = upload;
    if text_eq(part.name.as_str(), "audio") {
        if let Some(mime) = part.content_type {
            upload.mime = mime;
        }
        match part.data {
            Some(data) => {
                if data.len() > MAX_AUDIO_BYTES {
                    return Err(error_response(413, AUDIO_TOO_LARGE));
                }
                upload.audio = Some(data);
            },
            None => {
                return Err(error_response(400, AUDIO_UNREADABLE));
            },
        }
    } else if text_eq(part.name.as_str(), "password") {
        if let Some(data) = part.data {
            upload.password = from_utf8_lossy(data.as_slice());
        }
    }
    Ok(upload)
}

/// Whether a part of which so many bytes have come is read on: beyond the limit there is no
/// need to.
pub fn reads_on(len: usize) -> (r: bool)
    ensures
        r == (len <= MAX_AUDIO_BYTES),
{
    len <= MAX_AUDIO_BYTES
}

// ── The request ─────────────────────────────────────────────────────────────

/// How far a request for a transcript has come.
#[derive(Debug)]
pub enum AudioStep {
    /// The next part is to be read.
    Receiving { upload: AudioUpload },
    /// The recording is to be made a WAV file.
    Converting { audio: Vec<u8> },
    /// The provider is to transcribe this.
    Transcribing { audio: Vec<u8>, mime: String },
    /// The request is answered.
    Finished { reply: Reply },
}

/// What an `AudioStep` says.
pub enum AudioStepView {
    Receiving { upload: UploadView },
    Converting { audio: Seq<u8> },
    Transcribing { audio: Seq<u8>, mime: Seq<char> },
    Finished { reply: ReplyView },
}

impl View for AudioStep {
    type V = AudioStepView;

    open spec fn view(&self) -> AudioStepView {
        match self {
            AudioStep::Receiving { upload } => AudioStepView::Receiving { upload: upload@ },
            AudioStep::Converting { audio } => AudioStepView::Converting { audio: audio@ },
            AudioStep::Transcribing { audio, mime } => AudioStepView::Transcribing {
                audio: audio@,
                mime: mime@,
            },
            AudioStep::Finished { reply } => AudioStepView::Finished { reply: reply@ },
        }
    }
}

/// What happens to a request for a transcript.
#[derive(Debug)]
pub enum AudioEvent {
    /// A part has come.
    Part { part: Part },
    /// There are no more parts.
    End,
    /// The upload is not what it should be.
    Broken { error: String },
    /// The recording is a WAV file, or cannot be made one.
    Converted { result: Result<Vec<u8>, String> },
    /// The provider has answered, or has not.
    Transcribed { answer: Result<String, String> },
}

/// What an `AudioEvent` says.
pub enum AudioEventView {
    Part { part: PartView },
    End,
    Broken { error: Seq<char> },
    Converted { result: Result<Seq<u8>, Seq<char>> },
    Transcribed { answer: Result<Seq<char>, Seq<char>> },
}

/// The view of a result of bytes.
pub open spec fn result_bytes(r: Result<Vec<u8>, String>) -> Result<Seq<u8>, Seq<char>> {
    match r {
        Ok(v) => Ok(v@),
        Err(e) => Err(e@),
    }
}

impl View for AudioEvent {
    type V = AudioEventView;

    open spec fn view(&self) -> AudioEventView {
        match self {
            AudioEvent::Part { part } => AudioEventView::Part { part: part@ },
            AudioEvent::End => AudioEventView::End,
            AudioEvent::Broken { error } => AudioEventView::Broken { error: error@ },
            AudioEvent::Converted { result } => AudioEventView::Converted {
                result: result_bytes(*result),
            },
            AudioEvent::Transcribed { answer } => AudioEventView::Transcribed {
                answer: process::result_text(*answer),
            },
        }
    }
}

/// The step that ends with an error.
pub open spec fn refused(status: u16, message: Seq<char>) -> AudioStepView {
    AudioStepView::Finished { reply: error_answer(status, message) }
}

fn refuse(status: u16, message: &str) -> (r: AudioStep)
    ensures
        r@ == refused(status, message@),
{
    AudioStep::Finished { reply: error_response(status, message) }
}

/// The step after all parts have come.
pub open spec fn after_upload(password: Seq<char>, upload: UploadView) -> AudioStepView {
    if !auth::admits(password, upload.password) {
        refused(403, auth::WRONG_PASSWORD@)
    } else {
        match upload.audio {
            Some(audio) => if audio.len() > 0 {
                AudioStepView::Converting { audio }
            } else {
                refused(400, AUDIO_MISSING@)
            },
            None => refused(400, AUDIO_MISSING@),
        }
    }
}

/// The step that an event leads to, on a server with this password.  An event that is not
/// due changes nothing.
pub open spec fn audio_advanced(
    password: Seq<char>,
    step: AudioStepView,
    event: AudioEventView,
) -> AudioStepView {
    match (step, event) {
        (AudioStepView::Receiving { upload }, AudioEventView::Part { part }) => match with_part(
            upload,
            part,
        ) {
            Ok(upload) => AudioStepView::Receiving { upload },
            Err(reply) => AudioStepView::Finished { reply },
        },
        (AudioStepView::Receiving { .. }, AudioEventView::Broken { error }) => refused(
            400,
            "Multipart parse error: "@ + error,
        ),
        (AudioStepView::Receiving { upload }, AudioEventView::End) => after_upload(
            password,
            upload,
        ),
        (AudioStepView::Converting { .. }, AudioEventView::Converted { result }) => match result {
            Ok(audio) => AudioStepView::Transcribing { audio, mime: WAV_MIME@ },
            Err(error) => refused(500, "Audio conversion failed: "@ + error),
        },
        (AudioStepView::Transcribing { .. }, AudioEventView::Transcribed { answer }) => {
            match answer {
                Ok(transcript) => AudioStepView::Finished {
                    reply: transcript_answer(transcript),
                },
                Err(error) => refused(502, "Transcription failed: "@ + error),
            }
        },
        _ => step,
    }
}

/// The first step of every request for a transcript.
pub open spec fn audio_begun() -> AudioStepView {
    AudioStepView::Receiving {
        upload: UploadView { audio: None, mime: DEFAULT_MIME@, password: Seq::empty() },
    }
}

/// Begins a request for a transcript.
pub fn post_audio() -> (r: AudioStep)
    ensures
        r@ == audio_begun(),
{
    AudioStep::Receiving {
        upload: AudioUpload {
            audio: None,
            mime: DEFAULT_MIME.to_owned(),
            password: String::new(),
        },
    }
}

fn finish_upload(app: &AppState, upload: AudioUpload) -> (r: AudioStep)
    ensures
        r@ == after_upload(app.config.server.password@, upload@),
{
    if !is_password_valid(&app.config.server, upload.password.as_str()) {
        return refuse(403, auth::WRONG_PASSWORD);
    }
    match upload.audio {
        Some(audio) => {
            if audio.len() > 0 {
                AudioStep::Converting { audio }
            } else {
                refuse(400, AUDIO_MISSING)
            }
        },
        None => refuse(400, AUDIO_MISSING),
    }
}

/// Takes a request for a transcript one step on.
pub fn advance(app: &AppState, step: AudioStep, event: AudioEvent) -> (r: AudioStep)
    ensures
        r@ == audio_advanced(app.config.server.password@, step@, event@),
{
    match (step, event) {
        (AudioStep::Receiving { upload }, AudioEvent::Part { part }) => {
            match receive(upload, part) {
                Ok(upload) => AudioStep::Receiving { upload },
                Err(reply) => AudioStep::Finished { reply },
            }
        },
        (AudioStep::Receiving { .. }, AudioEvent::Broken { error }) => refuse(
            400,
            "Multipart parse error: ".to_owned().concat(error.as_str()).as_str(),
        ),
        (AudioStep::Receiving { upload }, AudioEvent::End) => finish_upload(app, upload),
        (AudioStep::Converting { .. }, AudioEvent::Converted { result }) => {
            match result {
                Ok(audio) => AudioStep::Transcribing { audio, mime: WAV_MIME.to_owned() },
                Err(error) => refuse(
                    500,
                    "Audio conversion failed: ".to_owned().concat(error.as_str()).as_str(),
                ),
            }
        },
        (AudioStep::Transcribing { .. }, AudioEvent::Transcribed { answer }) => {
            match answer {
                Ok(transcript) => AudioStep::Finished {
                    reply: Reply::Json {
                        status: 200,
                        body: write_object("transcript", transcript.as_str()),
                    },
                },
                Err(error) => refuse(
                    502,
                    "Transcription failed: ".to_owned().concat(error.as_str()).as_str(),
                ),
            }
        },
        (step, _) => step,
    }
}

// ── Conversion ──────────────────────────────────────────────────────────────

/// How far a conversion has come.
#[derive(Debug)]
pub enum WavStep {
    /// The recording is to be written to its file.
    Writing,
    /// `ffmpeg` is to be run.
    Converting,
    /// What `ffmpeg` made is to be read.
    Reading,
    /// Both files are to be removed, and this is the result.
    Cleaning { result: Result<Vec<u8>, String> },
}

/// What a `WavStep` says.
pub enum WavStepView {
    Writing,
    Converting,
    Reading,
    Cleaning { result: Result<Seq<u8>, Seq<char>> },
}

impl View for WavStep {
    type V = WavStepView;

    open spec fn view(&self) -> WavStepView {
        match self {
            WavStep::Writing => WavStepView::Writing,
            WavStep::Converting => WavStepView::Converting,
            WavStep::Reading => WavStepView::Reading,
            WavStep::Cleaning { result } => WavStepView::Cleaning { result: result_bytes(*result) },
        }
    }
}

/// What the due action of a conversion came to.
#[derive(Debug)]
pub enum WavEvent {
    /// The action failed.
    Failed { error: String },
    /// The recording is written.
    Written,
    /// `ffmpeg` has ended, with this status.
    Exited { success: bool, status: String },
    /// The file is read.
    Read { wav: Vec<u8> },
}

/// What a `WavEvent` says.
pub enum WavEventView {
    Failed { error: Seq<char> },
    Written,
    Exited { success: bool, status: Seq<char> },
    Read { wav: Seq<u8> },
}

impl View for WavEvent {
    type V = WavEventView;

    open spec fn view(&self) -> WavEventView {
        match self {
            WavEvent::Failed { error } => WavEventView::Failed { error: error@ },
            WavEvent::Written => WavEventView::Written,
            WavEvent::Exited { success, status } => WavEventView::Exited {
                success: *success,
                status: status@,
            },
            WavEvent::Read { wav } => WavEventView::Read { wav: wav@ },
        }
    }
}

/// The step that an event leads to.  An event that is not due changes nothing.
pub open spec fn wav_advanced(step: WavStepView, event: WavEventView) -> WavStepView {
    match (step, event) {
        (WavStepView::Cleaning { .. }, _) => step,
        (_, WavEventView::Failed { error }) => WavStepView::Cleaning { result: Err(error) },
        (WavStepView::Writing, WavEventView::Written) => WavStepView::Converting,
        (WavStepView::Converting, WavEventView::Exited { success, status }) => if success {
            WavStepView::Reading
        } else {
            WavStepView::Cleaning { result: Err("ffmpeg exited with status "@ + status) }
        },
        (WavStepView::Reading, WavEventView::Read { wav }) => WavStepView::Cleaning {
            result: Ok(wav),
        },
        _ => step,
    }
}

/// Takes a conversion one step on.
pub fn convert_to_wav(step: WavStep, event: WavEvent) -> (r: WavStep)
    ensures
        r@ == wav_advanced(step@, event@),
{
    match (step, event) {
        (WavStep::Cleaning { result }, _) => WavStep::Cleaning { result },
        (_, WavEvent::Failed { error }) => WavStep::Cleaning { result: Err(error) },
        (WavStep::Writing, WavEvent::Written) => WavStep::Converting,
        (WavStep::Converting, WavEvent::Exited { success, status }) => {
            if success {
                WavStep::Reading
            } else {
                WavStep::Cleaning {
                    result: Err(
                        "ffmpeg exited with status ".to_owned().concat(status.as_str()),
                    ),
                }
            }
        },
        (WavStep::Reading, WavEvent::Read { wav }) => WavStep::Cleaning { result: Ok(wav) },
        (step, _) => step,
    }
}

/// The name of the file of recording `id`, with this extension.
pub open spec fn file_name_of(id: nat, extension: Seq<char>) -> Seq<char> {
    "agent2web_"@ + text::digits(id) + extension
}

/// The names of the files of a conversion: the recording's, and that of what is made of it.
pub fn wav_file_names(id: u32) -> (r: (String, String))
    ensures
        r.0@ == file_name_of(id as nat, ".webm"@),
        r.1@ == file_name_of(id as nat, ".wav"@),
{
    let number = decimal(id as u64);
    let stem = "agent2web_".to_owned().concat(number.as_str());
    (stem.as_str().to_owned().concat(".webm"), stem.concat(".wav"))
}

/// The arguments for `ffmpeg`: one channel of 16 kHz, in place of what stood there.
pub open spec fn ffmpeg_arguments(input: Seq<char>, output: Seq<char>) -> Seq<Seq<char>> {
    seq!["-y"@, "-i"@, input, "-ar"@, "16000"@, "-ac"@, "1"@, "-f"@, "wav"@, output]
}

/// The arguments for `ffmpeg`.
pub fn ffmpeg_args(input: &str, output: &str) -> (r: Vec<String>)
    ensures
        text::strings(r@) == ffmpeg_arguments(input@, output@),
{
    let mut args: Vec<String> = Vec::new();
    args.push("-y".to_owned());
    args.push("-i".to_owned());
    args.push(input.to_owned());
    args.push("-ar".to_owned());
    args.push("16000".to_owned());
    args.push("-ac".to_owned());
    args.push("1".to_owned());
    args.push("-f".to_owned());
    args.push("wav".to_owned());
    args.push(output.to_owned());
    assert(text::strings(args@) =~= ffmpeg_arguments(input@, output@));
    args
}

// ── Laws ────────────────────────────────────────────────────────────────────

/// The step that a sequence of events leads to.
pub open spec fn audio_trace(
    password: Seq<char>,
    events: Seq<AudioEventView>,
) -> AudioStepView
    decreases events.len(),
{
    if events.len() == 0 {
        audio_begun()
    } else {
        audio_advanced(password, audio_trace(password, events.drop_last()), events.last())
    }
}

/// Whether some event brings the password.
pub open spec fn password_sent(password: Seq<char>, events: Seq<AudioEventView>) -> bool {
    exists|i: int| 0 <= i < events.len() && brings_password(password, #[trigger] events[i])
}

/// Whether an event brings the password.
pub open spec fn brings_password(password: Seq<char>, event: AudioEventView) -> bool {
    match event {
        AudioEventView::Part { part } => part.name == "password"@ && part.data is Some
            && text::lossy_text(part.data->0) == password,
        _ => false,
    }
}

proof fn lemma_trace(password: Seq<char>, events: Seq<AudioEventView>)
    ensures
        match audio_trace(password, events) {
            AudioStepView::Receiving { upload } => {
                &&& upload.audio is Some ==> upload.audio->0.len() <= MAX_AUDIO_BYTES
                &&& upload.password.len() == 0 || upload.password != password || password_sent(
                    password,
                    events,
                )
            },
            AudioStepView::Converting { audio } => {
                &&& 0 < audio.len() <= MAX_AUDIO_BYTES
                &&& password.len() == 0 || password_sent(password, events)
            },
            AudioStepView::Transcribing { mime, .. } => {
                &&& mime == WAV_MIME@
                &&& password.len() == 0 || password_sent(password, events)
            },
            AudioStepView::Finished { reply } => reply.status() == 200 ==> password.len() == 0
                || password_sent(password, events),
        },
    decreases events.len(),
{
    if events.len() > 0 {
        let before = events.drop_last();
        lemma_trace(password, before);
        if password_sent(password, before) {
            let i = choose|i: int|
                0 <= i < before.len() && brings_password(password, #[trigger] before[i]);
            assert(brings_password(password, events[i]));
        }
        let event = events.last();
        if brings_password(password, event) {
            assert(brings_password(password, events[events.len() - 1]));
        }
        if let AudioEventView::Part { part } = event {
            reveal_strlit("audio");
            reveal_strlit("password");
        }
    }
}

/// Whatever comes, nothing is converted, transcribed or answered with success unless the
/// password, where there is one, has come with the upload.
pub proof fn law_no_transcript_without_password(
    password: Seq<char>,
    events: Seq<AudioEventView>,
)
    requires
        password.len() > 0,
        !password_sent(password, events),
    ensures
        match audio_trace(password, events) {
            AudioStepView::Receiving { .. } => true,
            AudioStepView::Finished { reply } => reply.status() != 200,
            _ => false,
        },
{
    lemma_trace(password, events);
}

/// Whatever comes, only a recording that is not empty and within the limit is converted.
pub proof fn law_audio_is_bounded(password: Seq<char>, events: Seq<AudioEventView>)
    ensures
        audio_trace(password, events) matches AudioStepView::Converting { audio } ==> 0
            < audio.len() <= MAX_AUDIO_BYTES,
        audio_trace(password, events) matches AudioStepView::Transcribing { mime, .. } ==> mime
            == WAV_MIME@,
{
    lemma_trace(password, events);
}

/// A recording that is sent with the right password, in this order or the other, is
/// converted as it came.
pub proof fn law_upload_is_converted(password: Seq<char>, audio: PartView, word: PartView)
    requires
        audio.name == "audio"@,
        audio.data is Some,
        0 < audio.data->0.len() <= MAX_AUDIO_BYTES,
        brings_password(password, (AudioEventView::Part { part: word })),
    ensures
        ({
            let sound = AudioEventView::Part { part: audio };
            let key = AudioEventView::Part { part: word };
            let goal = AudioStepView::Converting { audio: audio.data->0 };
            &&& audio_trace(password, seq![sound, key, AudioEventView::End]) == goal
            &&& audio_trace(password, seq![key, sound, AudioEventView::End]) == goal
        }),
{
    reveal_strlit("audio");
    reveal_strlit("password");
    assert("audio"@.len() == 5 && "password"@.len() == 8);
    let sound = AudioEventView::Part { part: audio };
    let key = AudioEventView::Part { part: word };
    reveal_with_fuel(audio_trace, 4);
    let a = seq![sound, key, AudioEventView::End];
    assert(a.drop_last() =~= seq![sound, key]);
    assert(a.drop_last().drop_last() =~= seq![sound]);
    assert(a.drop_last().drop_last().drop_last() =~= seq![]);
    let b = seq![key, sound, AudioEventView::End];
    assert(b.drop_last() =~= seq![key, sound]);
    assert(b.drop_last().drop_last() =~= seq![key]);
    assert(b.drop_last().drop_last().drop_last() =~= seq![]);
}

/// A conversion has a result only where the recording was written, `ffmpeg` succeeded and
/// its file was read; and a result, good or bad, is not changed any more.
pub proof fn law_conversion_result(step: WavStepView, event: WavEventView, later: WavEventView)
    ensures
        ({
            let next = wav_advanced(step, event);
            &&& (next matches WavStepView::Cleaning { result } && result is Ok && !(
            step is Cleaning)) ==> step is Reading && event is Read
            &&& next is Reading && !(step is Reading) ==> step is Converting && (
            event matches WavEventView::Exited { success, .. } && success)
            &&& next is Converting && !(step is Converting) ==> step is Writing && event is Written
            &&& next is Cleaning ==> wav_advanced(next, later) == next
        }),
{
}

} // verus!
