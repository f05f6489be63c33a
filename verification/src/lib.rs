//! A control panel for a coding agent on the web: its pages, its requests, and the rules
//! that they follow.

pub mod agent;
pub mod assets;
pub mod auth;
pub mod config;
pub mod diff;
pub mod handlers;
pub mod html;
pub mod json;
pub mod laws;
pub mod lifecycle;
pub mod path;
pub mod porcelain;
pub mod process;
pub mod reply;
pub mod router;
pub mod state;
pub mod stt;
pub mod templates;
pub mod text;
