use agent2web::config::{
    Config, DiffConfig, ForgeConfig, OpenAiSttConfig, ServerConfig, SttConfig, WhisperServerConfig,
};
use agent2web::handlers::audio::{
    advance, convert_to_wav, ffmpeg_args, post_audio, reads_on, wav_file_names, AudioEvent,
    AudioStep, Part, WavEvent, WavStep, MAX_AUDIO_BYTES,
};
use agent2web::reply::Reply;
use agent2web::state::AppState;
use agent2web::stt::deepgram::{
    read_deepgram_reply, DeepgramProvider, DeepgramReply, DgAlternative, DgChannel, DEEPGRAM_URL,
};
use agent2web::stt::whisper_api::{read_whisper_reply, WhisperApiProvider, WhisperReply};
use agent2web::stt::whisper_cpp::WhisperCppProvider;
use agent2web::stt::{build_provider, Provider};

fn app(password: &str) -> AppState {
    let mut server = ServerConfig::default();
    server.password = password.to_string();
    AppState::new(Config {
        server,
        forge: ForgeConfig::default(),
        stt: SttConfig::default(),
        diff: DiffConfig::default(),
    })
}

fn part(name: &str, content_type: Option<&str>, data: Option<Vec<u8>>) -> AudioEvent {
    AudioEvent::Part {
        part: Part {
            name: name.to_string(),
            content_type: content_type.map(|c| c.to_string()),
            data,
        },
    }
}

fn after(app: &AppState, events: Vec<AudioEvent>) -> AudioStep {
    let mut step = post_audio();
    for event in events {
        step = advance(app, step, event);
    }
    step
}

fn assert_json(step: AudioStep, want_status: u16, want_body: &str) {
    match step {
        AudioStep::Finished { reply: Reply::Json { status, body } } => {
            assert_eq!(status, want_status);
            assert_eq!(body, want_body);
        }
        other => panic!("unexpected: {other:?}"),
    }
}

#[test]
fn speech_becomes_text() {
    let app = app("pw");
    let step = after(
        &app,
        vec![
            part("audio", Some("audio/mp4"), Some(vec![1, 2, 3])),
            part("extra", None, Some(vec![9])),
            part("password", None, Some(b"pw".to_vec())),
        ],
    );
    match &step {
        AudioStep::Receiving { upload } => {
            assert_eq!(upload.mime, "audio/mp4");
            assert_eq!(upload.password, "pw");
        }
        other => panic!("unexpected: {other:?}"),
    }
    let step = advance(&app, step, AudioEvent::End);
    assert!(matches!(&step, AudioStep::Converting { audio } if audio == &[1, 2, 3]));
    let step = advance(&app, step, AudioEvent::Converted { result: Ok(vec![7, 8]) });
    assert!(matches!(&step, AudioStep::Transcribing { audio, mime }
        if audio == &[7, 8] && mime == "audio/wav"));
    let step = advance(
        &app,
        step,
        AudioEvent::Transcribed { answer: Ok("say \"hi\"\n\\ \u{1} ü".to_string()) },
    );
    assert_json(step, 200, "{\"transcript\":\"say \\\"hi\\\"\\n\\\\ \\u0001 ü\"}");
}

#[test]
fn an_upload_begins_as_webm() {
    match post_audio() {
        AudioStep::Receiving { upload } => {
            assert!(upload.audio.is_none());
            assert_eq!(upload.mime, "audio/webm");
            assert_eq!(upload.password, "");
        }
        other => panic!("unexpected: {other:?}"),
    }
}

#[test]
fn uploads_are_refused() {
    let open = app("");
    assert_json(
        after(&open, vec![part("audio", None, None)]),
        400,
        "{\"error\":\"Failed to read audio field.\"}",
    );
    assert_json(
        after(&open, vec![AudioEvent::Broken { error: "eof".to_string() }]),
        400,
        "{\"error\":\"Multipart parse error: eof\"}",
    );
    assert_json(
        after(&open, vec![AudioEvent::End]),
        400,
        "{\"error\":\"Missing or empty `audio` field in multipart upload.\"}",
    );
    assert_json(
        after(&open, vec![part("audio", None, Some(Vec::new())), AudioEvent::End]),
        400,
        "{\"error\":\"Missing or empty `audio` field in multipart upload.\"}",
    );
    assert_json(
        after(
            &app("pw"),
            vec![
                part("audio", None, Some(vec![1])),
                part("password", None, Some(b"px".to_vec())),
                part("password", None, None),
                AudioEvent::End,
            ],
        ),
        403,
        "{\"error\":\"Incorrect password.\"}",
    );
}

#[test]
fn recordings_are_limited() {
    let open = app("");
    assert_eq!(MAX_AUDIO_BYTES, 26214400);
    assert!(reads_on(0));
    assert!(reads_on(26214400));
    assert!(!reads_on(26214401));
    assert_json(
        after(&open, vec![part("audio", None, Some(vec![0; MAX_AUDIO_BYTES + 1]))]),
        413,
        "{\"error\":\"Audio upload exceeds the 25 MB limit.\"}",
    );
    let step = after(
        &open,
        vec![part("audio", None, Some(vec![0; MAX_AUDIO_BYTES])), AudioEvent::End],
    );
    assert!(matches!(step, AudioStep::Converting { .. }));
}

#[test]
fn conversion_and_transcription_may_fail() {
    let open = app("");
    let converting = || AudioStep::Converting { audio: vec![1] };
    assert_json(
        advance(&open, converting(), AudioEvent::Converted { result: Err("no ffmpeg".to_string()) }),
        500,
        "{\"error\":\"Audio conversion failed: no ffmpeg\"}",
    );
    let step = AudioStep::Transcribing { audio: vec![1], mime: "audio/wav".to_string() };
    assert_json(
        advance(&open, step, AudioEvent::Transcribed { answer: Err("down".to_string()) }),
        502,
        "{\"error\":\"Transcription failed: down\"}",
    );
    let step = advance(&open, converting(), AudioEvent::Transcribed { answer: Ok("x".to_string()) });
    assert!(matches!(step, AudioStep::Converting { .. }));
}

#[test]
fn the_password_may_come_first_or_last() {
    let app = app("pw");
    let sound = || part("audio", None, Some(vec![5]));
    let key = || part("password", None, Some(b"pw".to_vec()));
    for events in [vec![sound(), key(), AudioEvent::End], vec![key(), sound(), AudioEvent::End]] {
        assert!(matches!(after(&app, events), AudioStep::Converting { audio } if audio == [5]));
    }
}

#[test]
fn a_recording_is_converted_by_way_of_two_files() {
    assert_eq!(
        wav_file_names(123),
        ("agent2web_123.webm".to_string(), "agent2web_123.wav".to_string())
    );
    assert_eq!(
        ffmpeg_args("/tmp/i", "/tmp/o"),
        ["-y", "-i", "/tmp/i", "-ar", "16000", "-ac", "1", "-f", "wav", "/tmp/o"]
    );
    let step = convert_to_wav(WavStep::Writing, WavEvent::Written);
    assert!(matches!(step, WavStep::Converting));
    let step = convert_to_wav(step, WavEvent::Exited { success: true, status: "0".to_string() });
    assert!(matches!(step, WavStep::Reading));
    let step = convert_to_wav(step, WavEvent::Read { wav: vec![1] });
    assert!(matches!(&step, WavStep::Cleaning { result: Ok(wav) } if wav == &[1]));
    let step = convert_to_wav(step, WavEvent::Failed { error: "late".to_string() });
    assert!(matches!(step, WavStep::Cleaning { result: Ok(_) }));
}

#[test]
fn a_conversion_may_fail_at_each_step() {
    let exited = WavEvent::Exited { success: false, status: "exit status: 1".to_string() };
    match convert_to_wav(WavStep::Converting, exited) {
        WavStep::Cleaning { result: Err(e) } => {
            assert_eq!(e, "ffmpeg exited with status exit status: 1")
        }
        other => panic!("unexpected: {other:?}"),
    }
    for step in [WavStep::Writing, WavStep::Converting, WavStep::Reading] {
        match convert_to_wav(step, WavEvent::Failed { error: "io".to_string() }) {
            WavStep::Cleaning { result: Err(e) } => assert_eq!(e, "io"),
            other => panic!("unexpected: {other:?}"),
        }
    }
}

fn stt(provider: &str) -> SttConfig {
    SttConfig {
        provider: provider.to_string(),
        api_key: "key".to_string(),
        whisper_server: None,
        openai: None,
        deepgram: None,
    }
}

#[test]
fn the_configuration_names_the_provider() {
    for name in ["whisper_server", "whisper_api", ""] {
        match build_provider(&stt(name)) {
            Provider::WhisperApi { service } => {
                assert_eq!(service.url, "http://127.0.0.1:8090/v1/audio/transcriptions");
                assert_eq!(service.api_key, "");
                assert_eq!(service.model, "whisper-1");
            }
            other => panic!("unexpected: {other:?}"),
        }
    }
    let mut config = stt("whisper_server");
    config.whisper_server = Some(WhisperServerConfig { url: "http://x/".to_string() });
    assert!(matches!(build_provider(&config), Provider::WhisperApi { service }
        if service.url == "http://x/"));
    match build_provider(&stt("openai")) {
        Provider::WhisperApi { service } => {
            assert_eq!(service.url, "https://api.openai.com/v1/audio/transcriptions");
            assert_eq!(service.api_key, "key");
            assert_eq!(service.model, "whisper-1");
        }
        other => panic!("unexpected: {other:?}"),
    }
    let mut config = stt("openai");
    config.openai = Some(OpenAiSttConfig { model: "m".to_string() });
    assert!(matches!(build_provider(&config), Provider::WhisperApi { service }
        if service.model == "m"));
    assert!(matches!(build_provider(&stt("deepgram")), Provider::Deepgram { deepgram }
        if deepgram.api_key == "key"));
    assert!(matches!(build_provider(&stt("whisper_cpp")), Provider::WhisperCpp { .. }));
}

#[test]
fn a_whisper_request_names_the_format_and_the_key() {
    let service =
        WhisperApiProvider::new("http://u".to_string(), String::new(), "whisper-1".to_string());
    let request = service.request("audio/wav");
    assert_eq!(request.url, "http://u");
    assert_eq!(request.filename, "audio.wav");
    assert_eq!(request.model, "whisper-1");
    assert!(request.authorization.is_none());
    assert_eq!(service.request("audio/mp4").filename, "audio.mp4");
    assert_eq!(service.request("audio/x-m4a").filename, "audio.mp4");
    assert_eq!(service.request("audio/webm;codecs=opus").filename, "audio.webm");
    let service = WhisperApiProvider::new("u".to_string(), "k".to_string(), "m".to_string());
    assert_eq!(service.request("audio/wav").authorization.as_deref(), Some("Bearer k"));
}

#[test]
fn whisper_answers_are_read() {
    assert_eq!(
        read_whisper_reply(WhisperReply::Accepted { text: " hello \n".to_string() }),
        Ok("hello".to_string())
    );
    assert_eq!(
        read_whisper_reply(WhisperReply::Refused {
            status: "401 Unauthorized".to_string(),
            body: "bad key".to_string(),
        }),
        Err("Whisper API returned 401 Unauthorized: bad key".to_string())
    );
    assert_eq!(
        read_whisper_reply(WhisperReply::Failed { error: "timeout".to_string() }),
        Err("timeout".to_string())
    );
}

#[test]
fn deepgram_answers_are_read() {
    let channel = |texts: &[&str]| DgChannel {
        alternatives: texts.iter().map(|t| DgAlternative { transcript: t.to_string() }).collect(),
    };
    let accepted = |channels: Vec<DgChannel>| read_deepgram_reply(DeepgramReply::Accepted { channels });
    assert_eq!(accepted(vec![channel(&[" one ", "two"]), channel(&["x"])]), Ok("one".to_string()));
    assert_eq!(accepted(vec![channel(&[]), channel(&["x"])]), Ok(String::new()));
    assert_eq!(accepted(Vec::new()), Ok(String::new()));
    assert_eq!(
        read_deepgram_reply(DeepgramReply::Refused {
            status: "400 Bad Request".to_string(),
            body: "b".to_string(),
        }),
        Err("Deepgram API returned 400 Bad Request: b".to_string())
    );
    assert_eq!(
        read_deepgram_reply(DeepgramReply::Failed { error: "e".to_string() }),
        Err("e".to_string())
    );
    assert_eq!(DeepgramProvider::new("k".to_string()).authorization(), "Token k");
    assert_eq!(
        DEEPGRAM_URL,
        "https://api.deepgram.com/v1/listen?model=nova-3&smart_format=true"
    );
}

#[test]
fn whisper_cpp_is_refused() {
    assert_eq!(
        WhisperCppProvider {}.refusal(),
        "The whisper_cpp provider is not yet implemented (planned for M8). \
         Use the whisper_server provider instead."
    );
}

#[test]
fn answers_are_read_back_as_json() {
    let text: String = ('\0'..='\u{3000}').chain('\u{1f300}'..='\u{1f310}').collect();
    let step = AudioStep::Transcribing { audio: vec![1], mime: "audio/wav".to_string() };
    let done = advance(&app(""), step, AudioEvent::Transcribed { answer: Ok(text.clone()) });
    match done {
        AudioStep::Finished { reply: Reply::Json { status, body } } => {
            assert_eq!(status, 200);
            let value: serde_json::Value = serde_json::from_str(&body).unwrap();
            assert_eq!(value["transcript"].as_str(), Some(text.as_str()));
            assert_eq!(value.as_object().unwrap().len(), 1);
        }
        other => panic!("unexpected: {other:?}"),
    }
}
