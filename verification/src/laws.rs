//! What the library promises, said of what goes in and what comes out.
//!
//! Each law relates the arguments of an operation to its result in the plainest terms there
//! are: which characters stand where, which text is found in which, what is kept and what
//! is lost.

pub mod commits;
pub mod conversations;
pub mod diffs;
pub mod forms;
pub mod pages;
pub mod runs;
pub mod settings;
pub mod speech;
pub mod text;
