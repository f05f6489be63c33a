//! The server's configuration.

use vstd::prelude::*;
use vstd::string::*;

use crate::path;

pub mod defaults;

verus! {

/// The whole configuration.
#[derive(Debug)]
pub struct Config {
    pub server: ServerConfig,
    pub forge: ForgeConfig,
    pub stt: SttConfig,
    pub diff: DiffConfig,
}

#[derive(Debug)]
pub struct ServerConfig {
    /// Socket address to bind, e.g. "0.0.0.0:8080".
    pub bind: String,
    /// Path of the git repository that the agent works on.
    pub project_dir: String,
    /// Seconds after which a run of the agent is killed.
    pub run_timeout: u64,
    /// Shared password for all requests that change something.  Empty: no password is asked for.
    pub password: String,
    /// TLS settings, if there are any.
    pub tls: Option<TlsConfig>,
}

#[derive(Debug)]
pub struct TlsConfig {
    /// Whether to listen with TLS.
    pub enabled: bool,
    /// Path of the PEM certificate.
    pub cert: String,
    /// Path of the PEM private key.
    pub key: String,
}

#[derive(Debug)]
pub struct ForgeConfig {
    /// Name or path of the `forge` binary.
    pub binary: String,
    /// Command used to commit after a successful run.
    pub commit_cmd: String,
    /// Whether to push after every successful commit.
    pub auto_push: bool,
}

#[derive(Debug)]
pub struct SttConfig {
    /// Which provider to use: "whisper_server", "openai", "deepgram" or "whisper_cpp".
    pub provider: String,
    /// API key of a cloud provider.
    pub api_key: String,
    /// Settings of the local whisper-server.
    pub whisper_server: Option<WhisperServerConfig>,
    /// Settings of the OpenAI provider.
    pub openai: Option<OpenAiSttConfig>,
    /// Settings of the Deepgram provider.
    pub deepgram: Option<DeepgramConfig>,
}

#[derive(Debug)]
pub struct WhisperServerConfig {
    /// URL of the running whisper-server.
    pub url: String,
}

#[derive(Debug)]
pub struct OpenAiSttConfig {
    /// Name of the model.
    pub model: String,
}

#[derive(Debug)]
pub struct DeepgramConfig {}

#[derive(Debug)]
pub struct DiffConfig {
    /// Number of recent commits to keep.
    pub max_history: usize,
    /// Lines of context around each change in a diff.
    pub context_lines: usize,
}

impl Default for ServerConfig {
    fn default() -> (r: Self)
        ensures
            r.bind@ == "0.0.0.0:8080"@,
            r.project_dir@ == "."@,
            r.run_timeout == 600,
            r.password@ == Seq::<char>::empty(),
            r.tls is None,
    {
        ServerConfig {
            bind: defaults::bind(),
            project_dir: defaults::project_dir(),
            run_timeout: defaults::run_timeout(),
            password: String::new(),
            tls: None,
        }
    }
}

impl Default for ForgeConfig {
    fn default() -> (r: Self)
        ensures
            r.binary@ == "forge"@,
            r.commit_cmd@ == "forge commit"@,
            r.auto_push == false,
    {
        ForgeConfig {
            binary: defaults::forge_binary(),
            commit_cmd: defaults::commit_cmd(),
            auto_push: false,
        }
    }
}

impl Default for SttConfig {
    fn default() -> (r: Self)
        ensures
            r.provider@ == "whisper_server"@,
            r.api_key@ == Seq::<char>::empty(),
            r.whisper_server is None,
            r.openai is None,
            r.deepgram is None,
    {
        SttConfig {
            provider: defaults::stt_provider(),
            api_key: String::new(),
            whisper_server: None,
            openai: None,
            deepgram: None,
        }
    }
}

impl Default for DiffConfig {
    fn default() -> (r: Self)
        ensures
            r.max_history == 20,
            r.context_lines == 5,
    {
        DiffConfig {
            max_history: defaults::max_history(),
            context_lines: defaults::context_lines(),
        }
    }
}

/// What TLS settings say.
pub struct TlsView {
    pub enabled: bool,
    pub cert: Seq<char>,
    pub key: Seq<char>,
}

impl View for TlsConfig {
    type V = TlsView;

    open spec fn view(&self) -> TlsView {
        TlsView { enabled: self.enabled, cert: self.cert@, key: self.key@ }
    }
}

/// The view of optional TLS settings.
pub open spec fn opt_tls(tls: Option<TlsConfig>) -> Option<TlsView> {
    match tls {
        Some(t) => Some(t@),
        None => None,
    }
}

/// TLS settings read from the file at `path`: where TLS is enabled, the paths of
/// certificate and key are taken from the directory of that file.
pub open spec fn tls_read_from(tls: Option<TlsView>, path: Seq<char>) -> Option<TlsView> {
    match tls {
        Some(t) => if t.enabled {
            Some(
                TlsView {
                    enabled: true,
                    cert: path::file_beside(path, t.cert),
                    key: path::file_beside(path, t.key),
                },
            )
        } else {
            Some(t)
        },
        None => None,
    }
}

/// A secret of the configuration, unless the environment sets it.
pub open spec fn overridden(value: Seq<char>, environment: Option<String>) -> Seq<char> {
    match environment {
        Some(v) => v@,
        None => value,
    }
}

impl TlsConfig {
    /// Takes the paths of certificate and key from the directory of the file at `path`.
    fn read_from(self, path: &str) -> (r: TlsConfig)
        ensures
            Some(r@) == tls_read_from(Some(self@), path@),
    {
        if !self.enabled {
            return self;
        }
        TlsConfig {
            enabled: true,
            cert: path::resolve_beside(path, self.cert.as_str()),
            key: path::resolve_beside(path, self.key.as_str()),
        }
    }
}

/// What became of reading a configuration file.
#[derive(Debug)]
pub enum ConfigFile {
    /// The file cannot be read.
    Unreadable { error: String },
    /// The file holds no configuration.
    Unparsable { error: String },
    /// The file holds this configuration.
    Parsed { config: Config },
}

/// Whether `config` is what `parsed` says, in the file at `path`: file names are taken from
/// that file's directory, and the environment's `password` and `stt_api_key` take the
/// place of the file's.
pub open spec fn completed(
    config: Config,
    parsed: Config,
    path: Seq<char>,
    password: Option<String>,
    stt_api_key: Option<String>,
) -> bool {
    &&& config.server.bind == parsed.server.bind
    &&& config.server.project_dir == parsed.server.project_dir
    &&& config.server.run_timeout == parsed.server.run_timeout
    &&& config.server.password@ == overridden(parsed.server.password@, password)
    &&& opt_tls(config.server.tls) == tls_read_from(opt_tls(parsed.server.tls), path)
    &&& config.forge == parsed.forge
    &&& config.stt.provider == parsed.stt.provider
    &&& config.stt.api_key@ == overridden(parsed.stt.api_key@, stt_api_key)
    &&& config.stt.whisper_server == parsed.stt.whisper_server
    &&& config.stt.openai == parsed.stt.openai
    &&& config.stt.deepgram == parsed.stt.deepgram
    &&& config.diff == parsed.diff
}

/// Why a file gives no configuration, if it gives none.
pub open spec fn load_failure(file: ConfigFile, path: Seq<char>) -> Option<Seq<char>> {
    match file {
        ConfigFile::Unreadable { error } => Some(
            "Cannot read config file '"@ + path + "': "@ + error@,
        ),
        ConfigFile::Unparsable { error } => Some(
            "Config parse error in '"@ + path + "': "@ + error@,
        ),
        ConfigFile::Parsed { .. } => None,
    }
}

impl Config {
    /// Takes the configuration from the file at `path`, and the secrets from the
    /// environment where it sets them.
    pub fn load(
        file: ConfigFile,
        path: &str,
        password: Option<String>,
        stt_api_key: Option<String>,
    ) -> (r: Result<Config, String>)
        ensures
            match load_failure(file, path@) {
                Some(message) => r matches Err(m) && m@ == message,
                None => r matches Ok(c) && file matches ConfigFile::Parsed { config } && completed(
                    c,
                    config,
                    path@,
                    password,
                    stt_api_key,
                ),
            },
    {
        let mut config = match file {
            ConfigFile::Unreadable { error } => {
                return Err(
                    "Cannot read config file '".to_owned().concat(path).concat("': ").concat(
                        error.as_str(),
                    ),
                );
            },
            ConfigFile::Unparsable { error } => {
                return Err(
                    "Config parse error in '".to_owned().concat(path).concat("': ").concat(
                        error.as_str(),
                    ),
                );
            },
            ConfigFile::Parsed { config } => config,
        };
        config.server.tls = match config.server.tls {
            Some(tls) => Some(tls.read_from(path)),
            None => None,
        };
        if let Some(value) = password {
            config.server.password = value;
        }
        if let Some(value) = stt_api_key {
            config.stt.api_key = value;
        }
        Ok(config)
    }

    /// The configuration of a server that was started without a file: the defaults, with
    /// TLS enabled and its files in `.tls` below the home directory, and the
    /// environment's secrets.
    pub fn load_defaults(
        home: &str,
        password: Option<String>,
        stt_api_key: Option<String>,
    ) -> (r: Config)
        ensures
            r.server.bind@ == "0.0.0.0:8080"@,
            r.server.project_dir@ == "."@,
            r.server.run_timeout == 600,
            r.server.password@ == overridden(Seq::empty(), password),
            opt_tls(r.server.tls) == Some(
                (TlsView {
                    enabled: true,
                    cert: path::path_below(home@, ".tls/cert.pem"@),
                    key: path::path_below(home@, ".tls/key.pem"@),
                }),
            ),
            r.forge.binary@ == "forge"@,
            r.forge.commit_cmd@ == "forge commit"@,
            r.forge.auto_push == false,
            r.stt.provider@ == "whisper_server"@,
            r.stt.api_key@ == overridden(Seq::empty(), stt_api_key),
            r.stt.whisper_server is None,
            r.stt.openai is None,
            r.stt.deepgram is None,
            r.diff.max_history == 20,
            r.diff.context_lines == 5,
    {
        let mut server = ServerConfig::default();
        server.tls = Some(
            TlsConfig {
                enabled: true,
                cert: path::join_path(home, ".tls/cert.pem"),
                key: path::join_path(home, ".tls/key.pem"),
            },
        );
        let mut stt = SttConfig::default();
        if let Some(value) = password {
            server.password = value;
        }
        if let Some(value) = stt_api_key {
            stt.api_key = value;
        }
        Config { server, forge: ForgeConfig::default(), stt, diff: DiffConfig::default() }
    }
}

/// How the server listens.
#[derive(Debug)]
pub enum Listener {
    /// Plain HTTP.
    Plain,
    /// HTTPS, with the paths of a PEM certificate and its key.
    Tls { cert: String, key: String },
}

/// What is said where TLS is enabled and a path is missing.
pub const TLS_PATH_MISSING: &'static str =
    "TLS is enabled but [server.tls] cert or key path is empty. \
     Run `bash tls/generate.sh` to create a self-signed certificate.";

/// What a `Listener` says.
pub enum ListenerView {
    Plain,
    Tls { cert: Seq<char>, key: Seq<char> },
}

impl View for Listener {
    type V = ListenerView;

    open spec fn view(&self) -> ListenerView {
        match self {
            Listener::Plain => ListenerView::Plain,
            Listener::Tls { cert, key } => ListenerView::Tls { cert: cert@, key: key@ },
        }
    }
}

/// What comes of the settings of TLS.
pub open spec fn listener_view(r: Result<Listener, String>) -> Result<ListenerView, Seq<char>> {
    match r {
        Ok(listener) => Ok(listener@),
        Err(message) => Err(message@),
    }
}

/// How a server with these settings listens, or why it cannot.
pub open spec fn listener_of(tls: Option<TlsView>) -> Result<ListenerView, Seq<char>> {
    match tls {
        Some(t) => if !t.enabled {
            Ok(ListenerView::Plain)
        } else if t.cert.len() == 0 || t.key.len() == 0 {
            Err(TLS_PATH_MISSING@)
        } else {
            Ok(ListenerView::Tls { cert: t.cert, key: t.key })
        },
        None => Ok(ListenerView::Plain),
    }
}

/// Chooses how to listen: with TLS where it is enabled, which takes both paths.
pub fn listener(tls: &Option<TlsConfig>) -> (r: Result<Listener, String>)
    ensures
        listener_view(r) == listener_of(opt_tls(*tls)),
{
    match tls {
        Some(t) => {
            if !t.enabled {
                Ok(Listener::Plain)
            } else if t.cert.as_str().is_empty() || t.key.as_str().is_empty() {
                Err(TLS_PATH_MISSING.to_owned())
            } else {
                Ok(Listener::Tls { cert: t.cert.clone(), key: t.key.clone() })
            }
        },
        None => Ok(Listener::Plain),
    }
}

} // verus!
