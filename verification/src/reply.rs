//! What the server answers.

use vstd::prelude::*;
use vstd::string::*;

use crate::templates;
use crate::templates::render_error;

verus! {

/// The answer to a request.
#[derive(Debug)]
pub enum Reply {
    /// A page.
    Html { status: u16, body: String },
    /// A JSON document.
    Json { status: u16, body: String },
    /// Plain text.
    Text { status: u16, body: String },
    /// `303 See Other`: the browser is sent elsewhere.
    Redirect { location: String },
}

/// What a `Reply` says.
pub enum ReplyView {
    Html { status: u16, body: Seq<char> },
    Json { status: u16, body: Seq<char> },
    Text { status: u16, body: Seq<char> },
    Redirect { location: Seq<char> },
}

impl View for Reply {
    type V = ReplyView;

    open spec fn view(&self) -> ReplyView {
        match self {
            Reply::Html { status, body } => ReplyView::Html { status: *status, body: body@ },
            Reply::Json { status, body } => ReplyView::Json { status: *status, body: body@ },
            Reply::Text { status, body } => ReplyView::Text { status: *status, body: body@ },
            Reply::Redirect { location } => ReplyView::Redirect { location: location@ },
        }
    }
}

impl ReplyView {
    /// The status code of the answer.
    pub open spec fn status(self) -> u16 {
        match self {
            ReplyView::Html { status, .. } => status,
            ReplyView::Json { status, .. } => status,
            ReplyView::Text { status, .. } => status,
            ReplyView::Redirect { .. } => 303,
        }
    }
}

impl Reply {
    /// The status code of the answer.
    pub fn status(&self) -> (r: u16)
        ensures
            r == self@.status(),
    {
        match self {
            Reply::Html { status, .. } => *status,
            Reply::Json { status, .. } => *status,
            Reply::Text { status, .. } => *status,
            Reply::Redirect { .. } => 303,
        }
    }
}

/// The page that answers with an error.
pub open spec fn error_view(status: u16, message: Seq<char>) -> ReplyView {
    ReplyView::Html { status, body: templates::error_page(status as nat, message) }
}

/// The answer that sends the browser to the main page.
pub open spec fn home_view() -> ReplyView {
    ReplyView::Redirect { location: "/"@ }
}

/// Answers with an error page.
pub fn error_reply(status: u16, message: &str) -> (r: Reply)
    ensures
        r@ == error_view(status, message@),
{
    Reply::Html { status, body: render_error(status, message) }
}

/// Sends the browser to the main page.
pub fn home_reply() -> (r: Reply)
    ensures
        r@ == home_view(),
{
    Reply::Redirect { location: "/".to_owned() }
}

} // verus!
