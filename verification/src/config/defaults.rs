//! The values of settings that the configuration file leaves out.

use vstd::prelude::*;
use vstd::string::*;

verus! {

/// The socket address to bind.
pub fn bind() -> (r: String)
    ensures
        r@ == "0.0.0.0:8080"@,
{
    "0.0.0.0:8080".to_owned()
}

/// The repository that the agent works on.
pub fn project_dir() -> (r: String)
    ensures
        r@ == "."@,
{
    ".".to_owned()
}

/// The seconds after which a run is killed.
pub fn run_timeout() -> (r: u64)
    ensures
        r == 600,
{
    600
}

/// The name of the `forge` binary.
pub fn forge_binary() -> (r: String)
    ensures
        r@ == "forge"@,
{
    "forge".to_owned()
}

/// The command that commits after a run.
pub fn commit_cmd() -> (r: String)
    ensures
        r@ == "forge commit"@,
{
    "forge commit".to_owned()
}

/// The speech-to-text provider.
pub fn stt_provider() -> (r: String)
    ensures
        r@ == "whisper_server"@,
{
    "whisper_server".to_owned()
}

/// The endpoint of a local whisper-server.
pub fn whisper_server_url() -> (r: String)
    ensures
        r@ == "http://127.0.0.1:8090/v1/audio/transcriptions"@,
{
    "http://127.0.0.1:8090/v1/audio/transcriptions".to_owned()
}

/// The model that the OpenAI provider asks for.
pub fn openai_model() -> (r: String)
    ensures
        r@ == "whisper-1"@,
{
    "whisper-1".to_owned()
}

/// The number of recent commits to keep.
pub fn max_history() -> (r: usize)
    ensures
        r == 20,
{
    20
}

/// The lines of context around each change in a diff.
pub fn context_lines() -> (r: usize)
    ensures
        r == 5,
{
    5
}

} // verus!
