//! What the server does with each request.

pub mod audio;
pub mod commit;
pub mod conversation;
pub mod diff;
pub mod health;
pub mod index;
pub mod run;
pub mod stream;
