//! The command line of whisper.cpp, which is not supported yet.

use vstd::prelude::*;
use vstd::string::*;

verus! {

/// What is said to those who choose it.
pub const NOT_IMPLEMENTED: &'static str =
    "The whisper_cpp provider is not yet implemented (planned for M8). \
     Use the whisper_server provider instead.";

/// The command line of whisper.cpp.
#[derive(Debug)]
pub struct WhisperCppProvider {}

impl WhisperCppProvider {
    /// Refuses.
    pub fn refusal(&self) -> (r: String)
        ensures
            r@ == NOT_IMPLEMENTED@,
    {
        NOT_IMPLEMENTED.to_owned()
    }
}

} // verus!
