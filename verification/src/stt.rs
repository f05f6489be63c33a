//! Speech to text: which provider is asked, and what its answers mean.

use vstd::prelude::*;
use vstd::string::*;

use crate::config::SttConfig;
use crate::stt::deepgram::DeepgramProvider;
use crate::stt::whisper_api::WhisperApiProvider;
use crate::stt::whisper_cpp::WhisperCppProvider;
use crate::text::text_eq;

pub mod deepgram;
pub mod whisper_api;
pub mod whisper_cpp;

verus! {

/// Where the local whisper-server listens, unless the configuration says otherwise.
pub const WHISPER_SERVER_URL: &'static str = "http://127.0.0.1:8090/v1/audio/transcriptions";

/// Where OpenAI transcribes.
pub const OPENAI_URL: &'static str = "https://api.openai.com/v1/audio/transcriptions";

/// The model that is asked for, unless the configuration says otherwise.
pub const DEFAULT_MODEL: &'static str = "whisper-1";

/// A provider.
#[derive(Debug)]
pub enum Provider {
    /// A service that understands OpenAI's requests.
    WhisperApi { service: WhisperApiProvider },
    /// Deepgram.
    Deepgram { deepgram: DeepgramProvider },
    /// The command line of whisper.cpp.
    WhisperCpp { command: WhisperCppProvider },
}

/// What a `Provider` says.
pub enum ProviderView {
    WhisperApi { url: Seq<char>, api_key: Seq<char>, model: Seq<char> },
    Deepgram { api_key: Seq<char> },
    WhisperCpp,
}

impl View for Provider {
    type V = ProviderView;

    open spec fn view(&self) -> ProviderView {
        match self {
            Provider::WhisperApi { service } => ProviderView::WhisperApi {
                url: service.url@,
                api_key: service.api_key@,
                model: service.model@,
            },
            Provider::Deepgram { deepgram } => ProviderView::Deepgram {
                api_key: deepgram.api_key@,
            },
            Provider::WhisperCpp { .. } => ProviderView::WhisperCpp,
        }
    }
}

/// The local whisper-server, which takes no key.
pub open spec fn local_server(config: SttConfig) -> ProviderView {
    ProviderView::WhisperApi {
        url: match config.whisper_server {
            Some(c) => c.url@,
            None => WHISPER_SERVER_URL@,
        },
        api_key: Seq::empty(),
        model: DEFAULT_MODEL@,
    }
}

/// The provider that the configuration names.  A name that is none stands for the local
/// whisper-server.
pub open spec fn configured_provider(config: SttConfig) -> ProviderView {
    if config.provider@ == "openai"@ {
        ProviderView::WhisperApi {
            url: OPENAI_URL@,
            api_key: config.api_key@,
            model: match config.openai {
                Some(c) => c.model@,
                None => DEFAULT_MODEL@,
            },
        }
    } else if config.provider@ == "deepgram"@ {
        ProviderView::Deepgram { api_key: config.api_key@ }
    } else if config.provider@ == "whisper_cpp"@ {
        ProviderView::WhisperCpp
    } else {
        local_server(config)
    }
}

fn build_local_server(config: &SttConfig) -> (r: Provider)
    ensures
        r@ == local_server(*config),
{
    let url = match &config.whisper_server {
        Some(c) => c.url.clone(),
        None => WHISPER_SERVER_URL.to_owned(),
    };
    Provider::WhisperApi {
        service: WhisperApiProvider::new(url, String::new(), DEFAULT_MODEL.to_owned()),
    }
}

/// Builds the provider that the configuration names.
pub fn build_provider(config: &SttConfig) -> (r: Provider)
    ensures
        r@ == configured_provider(*config),
{
    let name: &str = config.provider.as_str();
    if text_eq(name, "openai") {
        let model = match &config.openai {
            Some(c) => c.model.clone(),
            None => DEFAULT_MODEL.to_owned(),
        };
        Provider::WhisperApi {
            service: WhisperApiProvider::new(
                OPENAI_URL.to_owned(),
                config.api_key.clone(),
                model,
            ),
        }
    } else if text_eq(name, "deepgram") {
        Provider::Deepgram { deepgram: DeepgramProvider::new(config.api_key.clone()) }
    } else if text_eq(name, "whisper_cpp") {
        Provider::WhisperCpp { command: WhisperCppProvider {} }
    } else {
        build_local_server(config)
    }
}

/// The key of the configuration goes to the cloud providers and to no other.
pub proof fn law_key_stays_off_the_local_server(config: SttConfig)
    ensures
        match configured_provider(config) {
            ProviderView::WhisperApi { url, api_key, .. } => {
                ||| api_key.len() == 0
                ||| config.provider@ == "openai"@ && url == OPENAI_URL@ && api_key
                    == config.api_key@
            },
            ProviderView::Deepgram { api_key } => config.provider@ == "deepgram"@ && api_key
                == config.api_key@,
            ProviderView::WhisperCpp => config.provider@ == "whisper_cpp"@,
        },
{
}

} // verus!
