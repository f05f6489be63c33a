//! Laws of speech: what is uploaded, what a provider is asked for, and what it has understood.

use vstd::prelude::*;
use vstd::string::*;

use crate::config::SttConfig;
use crate::handlers::audio;
use crate::handlers::audio::{
    AudioEventView, AudioStepView, PartView, UploadView, WavEventView, WavStepView,
};
use crate::json;
use crate::laws::conversations;
use crate::laws::text as texts;
use crate::reply::ReplyView;
use crate::stt;
use crate::stt::deepgram;
use crate::stt::deepgram::{DeepgramReply, DgChannel};
use crate::stt::whisper_api;
use crate::stt::whisper_api::WhisperReplyView;
use crate::stt::ProviderView;
use crate::text;

verus! {

// ── Transcripts ─────────────────────────────────────────────────────────────

/// A transcript is what the service has understood, all of it but the white space before and
/// behind it.  Where the service refuses, the reason tells its status and what it said; where
/// there is no answer, the reason is the error.
pub proof fn law_whisper_transcript(reply: WhisperReplyView)
    ensures
        match reply {
            WhisperReplyView::Accepted { text } => whisper_api::whisper_transcript(
                reply,
            ) matches Ok(transcript) && texts::is_core(text, transcript),
            WhisperReplyView::Refused { status, body } => whisper_api::whisper_transcript(
                reply,
            ) matches Err(message) && message == "Whisper API returned "@ + status + ": "@ + body,
            WhisperReplyView::Failed { error } => whisper_api::whisper_transcript(
                reply,
            ) matches Err(message) && message == error,
        },
{
    if let WhisperReplyView::Accepted { text } = reply {
        texts::law_trimming(text);
    }
}

/// Whether `heard` is what Deepgram takes for likeliest: the first reading of the first
/// channel, but for the white space around it; and nothing where there is none.
pub open spec fn is_likeliest(channels: Seq<DgChannel>, heard: Seq<char>) -> bool {
    let some = channels.len() > 0 && channels[0].alternatives@.len() > 0;
    &&& some ==> texts::is_core(channels[0].alternatives@[0].transcript@, heard)
    &&& !some ==> heard.len() == 0
}

/// The same of Deepgram.
pub proof fn law_deepgram_transcript(reply: DeepgramReply)
    ensures
        match reply {
            DeepgramReply::Accepted { channels } => deepgram::deepgram_transcript(
                reply,
            ) matches Ok(transcript) && is_likeliest(channels@, transcript),
            DeepgramReply::Refused { status, body } => deepgram::deepgram_transcript(
                reply,
            ) matches Err(message) && message == "Deepgram API returned "@ + status@ + ": "@
                + body@,
            DeepgramReply::Failed { error } => deepgram::deepgram_transcript(
                reply,
            ) matches Err(message) && message == error@,
        },
{
    if let DeepgramReply::Accepted { channels } = reply {
        if channels@.len() > 0 && channels@[0].alternatives@.len() > 0 {
            texts::law_trimming(channels@[0].alternatives@[0].transcript@);
        }
    }
}

// ── Requests ────────────────────────────────────────────────────────────────

/// A key is sent whole, and where there is none, none is sent.
pub proof fn law_key_is_sent(api_key: Seq<char>)
    ensures
        api_key.len() == 0 ==> whisper_api::bearer(api_key) is None,
        api_key.len() > 0 ==> {
            &&& whisper_api::bearer(api_key) is Some
            &&& text::begins_with(whisper_api::bearer(api_key)->0, "Bearer "@)
            &&& whisper_api::bearer(api_key)->0.skip(7) == api_key
        },
{
    reveal_strlit("Bearer ");
    let value = "Bearer "@ + api_key;
    assert(value.take(7) =~= "Bearer "@);
    assert(value.skip(7) =~= api_key);
}

/// A recording is sent under a name that tells its type.
pub proof fn law_recording_is_named(mime: Seq<char>)
    ensures
        text::occurs_in(mime, "wav"@) ==> whisper_api::filename_for(mime) == "audio.wav"@,
        !text::occurs_in(mime, "wav"@) && (text::occurs_in(mime, "mp4"@) || text::occurs_in(
            mime,
            "m4a"@,
        )) ==> whisper_api::filename_for(mime) == "audio.mp4"@,
        !text::occurs_in(mime, "wav"@) && !text::occurs_in(mime, "mp4"@) && !text::occurs_in(
            mime,
            "m4a"@,
        ) ==> whisper_api::filename_for(mime) == "audio.webm"@,
{
}

/// The provider is the one that is configured, with the key, the address and the model that
/// are configured; and any other name means the local server.
pub proof fn law_provider(config: SttConfig)
    ensures
        config.provider@ == "openai"@ ==> match stt::configured_provider(config) {
            ProviderView::WhisperApi { url, api_key, model } => {
                &&& url == "https://api.openai.com/v1/audio/transcriptions"@
                &&& api_key == config.api_key@
                &&& config.openai matches Some(c) ==> model == c.model@
                &&& config.openai is None ==> model == "whisper-1"@
            },
            _ => false,
        },
        config.provider@ == "deepgram"@ ==> stt::configured_provider(config) == (
        ProviderView::Deepgram { api_key: config.api_key@ }),
        config.provider@ == "whisper_cpp"@ ==> stt::configured_provider(config) is WhisperCpp,
        config.provider@ != "openai"@ && config.provider@ != "deepgram"@ && config.provider@
            != "whisper_cpp"@ ==> match stt::configured_provider(config) {
            ProviderView::WhisperApi { url, api_key, model } => {
                &&& config.whisper_server matches Some(c) ==> url == c.url@
                &&& config.whisper_server is None ==> url
                    == "http://127.0.0.1:8090/v1/audio/transcriptions"@
                &&& api_key.len() == 0
                &&& model == "whisper-1"@
            },
            _ => false,
        },
{
    reveal_strlit("openai");
    reveal_strlit("deepgram");
    reveal_strlit("whisper_cpp");
    assert("openai"@.len() == 6 && "deepgram"@.len() == 8 && "whisper_cpp"@.len() == 11);
}

// ── JSON ────────────────────────────────────────────────────────────────────

/// The value of a hexadecimal digit.
pub open spec fn hex_value(c: char) -> int {
    if '0' <= c <= '9' {
        c as int - '0' as int
    } else {
        c as int - 'a' as int + 10
    }
}

/// What a reader of JSON makes of the inside of a string: each escape is the character that it
/// stands for, and every other character is itself.
pub open spec fn json_reads(s: Seq<char>) -> Seq<char>
    decreases s.len(),
{
    if s.len() == 0 {
        seq![]
    } else if s[0] != '\\' || s.len() < 2 {
        seq![s[0]] + json_reads(s.skip(1))
    } else if s[1] == 'b' {
        seq!['\u{8}'] + json_reads(s.skip(2))
    } else if s[1] == 't' {
        seq!['\t'] + json_reads(s.skip(2))
    } else if s[1] == 'n' {
        seq!['\n'] + json_reads(s.skip(2))
    } else if s[1] == 'f' {
        seq!['\u{c}'] + json_reads(s.skip(2))
    } else if s[1] == 'r' {
        seq!['\r'] + json_reads(s.skip(2))
    } else if s[1] == 'u' && s.len() >= 6 {
        seq![(hex_value(s[4]) * 16 + hex_value(s[5])) as char] + json_reads(s.skip(6))
    } else {
        seq![s[1]] + json_reads(s.skip(2))
    }
}

proof fn lemma_reads_char(c: char, rest: Seq<char>)
    ensures
        json_reads(json::json_char(c) + rest) == seq![c] + json_reads(rest),
{
    let e = json::json_char(c);
    let s = e + rest;
    assert(s.skip(e.len() as int) =~= rest);
    let n = c as nat;
    if n < 32 && n != 8 && n != 9 && n != 10 && n != 12 && n != 13 {
        let hi = json::hex_digit(n / 16);
        let lo = json::hex_digit(n % 16);
        assert(s[4] == hi && s[5] == lo);
        assert(hex_value(hi) == n / 16);
        assert(hex_value(lo) == n % 16);
        assert(n == (n / 16) * 16 + n % 16);
    }
}

proof fn lemma_json_first(s: Seq<char>)
    requires
        s.len() > 0,
    ensures
        json::json_chars(s) == json::json_char(s[0]) + json::json_chars(s.drop_first()),
    decreases s.len(),
{
    if s.len() == 1 {
        assert(s.drop_last() =~= s.drop_first());
        assert(json::json_chars(s) =~= json::json_char(s[0]) + json::json_chars(s.drop_first()));
    } else {
        lemma_json_first(s.drop_last());
        assert(s.drop_last().drop_first() =~= s.drop_first().drop_last());
        assert(s.drop_first().last() == s.last());
        assert(json::json_chars(s) =~= json::json_char(s[0]) + json::json_chars(s.drop_first()));
    }
}

/// A reader of JSON reads a string as the text that was written.
pub proof fn law_json_is_read_back(s: Seq<char>)
    ensures
        json_reads(json::json_chars(s)) == s,
    decreases s.len(),
{
    if s.len() == 0 {
        assert(json_reads(json::json_chars(s)) =~= s);
    } else {
        let rest = s.drop_first();
        lemma_json_first(s);
        lemma_reads_char(s[0], json::json_chars(rest));
        law_json_is_read_back(rest);
        assert(seq![s[0]] + rest =~= s);
    }
}

/// Whether an answer is a JSON document with this status and a single field, of this name, that
/// reads as `value`.
pub open spec fn says(reply: ReplyView, status: u16, name: Seq<char>, value: Seq<char>) -> bool {
    exists|k: Seq<char>, v: Seq<char>|
        {
            &&& reply == (ReplyView::Json { status, body: #[trigger] document(k, v) })
            &&& json_reads(k) == name
            &&& json_reads(v) == value
        }
}

/// A JSON document with a single field.
pub open spec fn document(k: Seq<char>, v: Seq<char>) -> Seq<char> {
    seq!['{', '"'] + k + seq!['"', ':', '"'] + v + seq!['"', '}']
}

proof fn lemma_document(key: Seq<char>, value: Seq<char>)
    ensures
        json::json_object(key, value) == document(json::json_chars(key), json::json_chars(value)),
        json_reads(json::json_chars(key)) == key,
        json_reads(json::json_chars(value)) == value,
{
    assert(json::json_object(key, value) =~= document(
        json::json_chars(key),
        json::json_chars(value),
    ));
    law_json_is_read_back(key);
    law_json_is_read_back(value);
}

/// The answer to a recording tells the transcript, whole, or the error.
pub proof fn law_answers(status: u16, message: Seq<char>)
    ensures
        says(audio::error_answer(status, message), status, "error"@, message),
        says(audio::transcript_answer(message), 200, "transcript"@, message),
{
    lemma_document("error"@, message);
    lemma_document("transcript"@, message);
}

// ── Uploads ─────────────────────────────────────────────────────────────────

/// Whether the upload is over with this answer.
pub open spec fn is_refused(step: AudioStepView, status: u16, message: Seq<char>) -> bool {
    match step {
        AudioStepView::Finished { reply } => says(reply, status, "error"@, message),
        _ => false,
    }
}

/// A recording is kept as it was sent, with its type where it says one; one that is too large
/// or cannot be read ends the upload.  A password is kept as it was sent.  No other part
/// changes anything.
pub proof fn law_parts_of_an_upload(password: Seq<char>, upload: UploadView, part: PartView)
    ensures
        ({
            let next = audio::audio_advanced(
                password,
                AudioStepView::Receiving { upload },
                AudioEventView::Part { part },
            );
            &&& part.name == "audio"@ && part.data is None ==> is_refused(
                next,
                400,
                "Failed to read audio field."@,
            )
            &&& part.name == "audio"@ && part.data is Some && part.data->0.len() > 26_214_400
                ==> is_refused(next, 413, "Audio upload exceeds the 25 MB limit."@)
            &&& part.name == "audio"@ && part.data is Some && part.data->0.len() <= 26_214_400
                ==> match next {
                AudioStepView::Receiving { upload: u } => {
                    &&& u.audio == part.data
                    &&& part.content_type matches Some(mime) ==> u.mime == mime
                    &&& part.content_type is None ==> u.mime == upload.mime
                    &&& u.password == upload.password
                },
                _ => false,
            }
            &&& part.name == "password"@ && part.data is Some ==> next == (
            AudioStepView::Receiving {
                upload: UploadView { password: text::lossy_text(part.data->0), ..upload },
            })
            &&& part.name == "password"@ && part.data is None ==> next == (
            AudioStepView::Receiving { upload })
            &&& part.name != "audio"@ && part.name != "password"@ ==> next == (
            AudioStepView::Receiving { upload })
        }),
{
    reveal_strlit("audio");
    reveal_strlit("password");
    assert("audio"@.len() == 5 && "password"@.len() == 8);
    law_answers(400, "Failed to read audio field."@);
    law_answers(413, "Audio upload exceeds the 25 MB limit."@);
}

/// At its end, an upload is refused for a wrong password and without a recording, in this
/// order.  Otherwise the recording is converted as it was sent.
pub proof fn law_end_of_an_upload(password: Seq<char>, upload: UploadView)
    ensures
        ({
            let next = audio::audio_advanced(
                password,
                AudioStepView::Receiving { upload },
                AudioEventView::End,
            );
            let right = conversations::right_password(password, upload.password);
            let recorded = upload.audio is Some && upload.audio->0.len() > 0;
            &&& !right ==> is_refused(next, 403, "Incorrect password."@)
            &&& right && !recorded ==> is_refused(
                next,
                400,
                "Missing or empty `audio` field in multipart upload."@,
            )
            &&& right && recorded ==> next == (AudioStepView::Converting {
                audio: upload.audio->0,
            })
        }),
{
    law_answers(403, "Incorrect password."@);
    law_answers(400, "Missing or empty `audio` field in multipart upload."@);
}

/// What was converted is transcribed as it is, and the transcript is the answer, whole.  What
/// goes wrong on the way is told.
pub proof fn law_way_of_a_recording(
    password: Seq<char>,
    upload: UploadView,
    audio: Seq<u8>,
    mime: Seq<char>,
    error: Seq<char>,
    transcript: Seq<char>,
    wav: Seq<u8>,
)
    ensures
        is_refused(
            audio::audio_advanced(
                password,
                AudioStepView::Receiving { upload },
                AudioEventView::Broken { error },
            ),
            400,
            "Multipart parse error: "@ + error,
        ),
        audio::audio_advanced(
            password,
            AudioStepView::Converting { audio },
            AudioEventView::Converted { result: Ok(wav) },
        ) == (AudioStepView::Transcribing { audio: wav, mime: "audio/wav"@ }),
        is_refused(
            audio::audio_advanced(
                password,
                AudioStepView::Converting { audio },
                AudioEventView::Converted { result: Err(error) },
            ),
            500,
            "Audio conversion failed: "@ + error,
        ),
        audio::audio_advanced(
            password,
            AudioStepView::Transcribing { audio, mime },
            AudioEventView::Transcribed { answer: Ok(transcript) },
        ) matches AudioStepView::Finished { reply } && says(
            reply,
            200,
            "transcript"@,
            transcript,
        ),
        is_refused(
            audio::audio_advanced(
                password,
                AudioStepView::Transcribing { audio, mime },
                AudioEventView::Transcribed { answer: Err(error) },
            ),
            502,
            "Transcription failed: "@ + error,
        ),
{
    law_answers(400, "Multipart parse error: "@ + error);
    law_answers(500, "Audio conversion failed: "@ + error);
    law_answers(502, "Transcription failed: "@ + error);
    law_answers(200, transcript);
}

/// An upload begins with nothing, and is answered once.
pub proof fn law_beginning_of_an_upload(
    password: Seq<char>,
    reply: ReplyView,
    event: AudioEventView,
)
    ensures
        audio::audio_begun() == (AudioStepView::Receiving {
            upload: UploadView { audio: None, mime: "audio/webm"@, password: Seq::empty() },
        }),
        audio::audio_advanced(password, AudioStepView::Finished { reply }, event) == (
        AudioStepView::Finished { reply }),
{
}

/// A recording is written, converted and read, in this order, and what is read is the result.
/// The first failure is the result instead, and both files are removed in any case.
pub proof fn law_conversion(step: WavStepView, wav: Seq<u8>, error: Seq<char>, status: Seq<char>)
    ensures
        audio::wav_advanced(WavStepView::Writing, WavEventView::Written) is Converting,
        audio::wav_advanced(
            WavStepView::Converting,
            WavEventView::Exited { success: true, status },
        ) is Reading,
        audio::wav_advanced(WavStepView::Reading, WavEventView::Read { wav }) == (
        WavStepView::Cleaning { result: Ok(wav) }),
        audio::wav_advanced(
            WavStepView::Converting,
            WavEventView::Exited { success: false, status },
        ) == (WavStepView::Cleaning { result: Err("ffmpeg exited with status "@ + status) }),
        !(step is Cleaning) ==> audio::wav_advanced(step, WavEventView::Failed { error }) == (
        WavStepView::Cleaning { result: Err(error) }),
{
}

/// `ffmpeg` reads the one file and writes the other, as WAV with a single channel of 16 kHz.
pub proof fn law_what_ffmpeg_is_asked(input: Seq<char>, output: Seq<char>)
    ensures
        ({
            let args = audio::ffmpeg_arguments(input, output);
            &&& args.len() == 10
            &&& args[0] == "-y"@
            &&& args[1] == "-i"@ && args[2] == input
            &&& args[3] == "-ar"@ && args[4] == "16000"@
            &&& args[5] == "-ac"@ && args[6] == "1"@
            &&& args[7] == "-f"@ && args[8] == "wav"@
            &&& args[9] == output
        }),
{
}

/// Deepgram gets the key, whole.
pub proof fn law_deepgram_key(api_key: Seq<char>)
    ensures
        text::begins_with(deepgram::token(api_key), "Token "@),
        deepgram::token(api_key).skip(6) == api_key,
{
    reveal_strlit("Token ");
    let value = "Token "@ + api_key;
    assert(value.take(6) =~= "Token "@);
    assert(value.skip(6) =~= api_key);
}

/// Each recording has files of its own: the names tell its number and end with what they hold.
pub proof fn law_files_of_a_recording(id: nat, other: nat, extension: Seq<char>)
    ensures
        ({
            let name = audio::file_name_of(id, extension);
            let n = name.len() - extension.len();
            &&& text::begins_with(name, "agent2web_"@)
            &&& texts::value(name.subrange(10, n)) == id
            &&& name.skip(n) == extension
        }),
        id != other ==> audio::file_name_of(id, extension) != audio::file_name_of(
            other,
            extension,
        ),
{
    reveal_strlit("agent2web_");
    lemma_file_name(id, extension);
    lemma_file_name(other, extension);
}

proof fn lemma_file_name(id: nat, extension: Seq<char>)
    ensures
        ({
            let name = audio::file_name_of(id, extension);
            let n = name.len() - extension.len();
            &&& text::begins_with(name, "agent2web_"@)
            &&& texts::value(name.subrange(10, n)) == id
            &&& name.skip(n) == extension
        }),
{
    reveal_strlit("agent2web_");
    let name = audio::file_name_of(id, extension);
    let n = name.len() - extension.len();
    texts::law_decimal(id);
    assert(name.take(10) =~= "agent2web_"@);
    assert(name.subrange(10, n) =~= text::digits(id));
    assert(name.skip(n) =~= extension);
}

} // verus!
