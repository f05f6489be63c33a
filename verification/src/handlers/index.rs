//! The main page.

use vstd::prelude::*;
use vstd::string::*;

use crate::reply::{Reply, ReplyView};
use crate::state::{AppState, AppView};
use crate::templates;
use crate::templates::render_index;

verus! {

/// The main page, as an answer.
pub open spec fn index_answer(app: AppView) -> ReplyView {
    ReplyView::Html {
        status: 200,
        body: templates::index_page(
            app.run,
            app.conv,
            app.config.server.project_dir@,
            app.config.server.password@.len() > 0,
            app.prompts.len(),
        ),
    }
}

/// Answers a request for the main page.
pub fn get_index(app: &AppState) -> (r: Reply)
    ensures
        r@ == index_answer(app@),
{
    let password_enabled: bool = !app.config.server.password.as_str().is_empty();
    Reply::Html {
        status: 200,
        body: render_index(
            &app.run,
            &app.conv,
            app.config.server.project_dir.as_str(),
            password_enabled,
            app.prompts_since_commit.len(),
        ),
    }
}

} // verus!
