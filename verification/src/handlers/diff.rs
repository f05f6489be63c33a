//! The pages of diffs.

use vstd::prelude::*;
use vstd::string::*;

use crate::diff;
use crate::diff::{render_range, render_single_commit, render_working_tree, DiffResult, DiffView};
use crate::reply;
use crate::reply::{error_reply, Reply, ReplyView};
use crate::state::AppState;
use crate::templates;
use crate::templates::render_no_diff;
use crate::text;

verus! {

/// The query of a request for the diff of one commit.
#[derive(Debug)]
pub struct DiffCommitQuery {
    /// The commit, which is `HEAD` where none is named.
    pub rev: Option<String>,
}

/// The query of a request for the diff between two commits.
#[derive(Debug)]
pub struct DiffRangeQuery {
    /// The commit before the changes, which is `HEAD~1` where none is named.
    pub from: Option<String>,
    /// The commit with the changes, which is `HEAD` where none is named.
    pub to: Option<String>,
}

/// A diff that is to be made.
#[derive(Debug)]
pub struct DiffRequest {
    /// The arguments for `git`.
    pub args: Vec<String>,
    /// What is said where there is nothing to show.
    pub empty_message: &'static str,
}

/// What a `DiffRequest` says.
pub struct DiffRequestView {
    pub args: Seq<Seq<char>>,
    pub empty_message: Seq<char>,
}

impl View for DiffRequest {
    type V = DiffRequestView;

    open spec fn view(&self) -> DiffRequestView {
        DiffRequestView { args: text::strings(self.args@), empty_message: self.empty_message@ }
    }
}

/// What comes of a request for a diff.
pub open spec fn request_view(r: Result<DiffRequest, Reply>) -> Result<
    DiffRequestView,
    ReplyView,
> {
    match r {
        Ok(request) => Ok(request@),
        Err(page) => Err(page@),
    }
}

/// What is said of a clean working tree.
pub const TREE_CLEAN: &'static str = "No uncommitted changes in the working tree.";

/// What is said of a commit without changes.
pub const COMMIT_EMPTY: &'static str = "No changes in that commit.";

/// What is said of a range without changes.
pub const RANGE_EMPTY: &'static str = "No changes in the specified range.";

/// The value of a query's field, or its default.
pub open spec fn or_default(field: Option<String>, default: Seq<char>) -> Seq<char> {
    match field {
        Some(s) => s@,
        None => default,
    }
}

fn str_or<'a>(field: &'a Option<String>, default: &'a str) -> (r: &'a str)
    ensures
        r@ == or_default(*field, default@),
{
    match field {
        Some(s) => s.as_str(),
        None => default,
    }
}

/// A request for what has changed since the last commit.
pub open spec fn tree_request(context_lines: nat) -> DiffRequestView {
    DiffRequestView {
        args: diff::git_diff_args(context_lines, "HEAD"@),
        empty_message: TREE_CLEAN@,
    }
}

/// A request for what a commit has changed, or the page that refuses its name.
pub open spec fn commit_request(context_lines: nat, rev: Seq<char>) -> Result<
    DiffRequestView,
    ReplyView,
> {
    match diff::revision_fault(diff::revision_or_head(rev)) {
        Some(message) => Err(reply::error_view(500, message)),
        None => Ok(
            DiffRequestView {
                args: diff::git_diff_args(
                    context_lines,
                    diff::changes_of(diff::revision_or_head(rev)),
                ),
                empty_message: COMMIT_EMPTY@,
            },
        ),
    }
}

/// A request for what has changed between two commits, or the page that refuses a name.
pub open spec fn range_request(context_lines: nat, from: Seq<char>, to: Seq<char>) -> Result<
    DiffRequestView,
    ReplyView,
> {
    match diff::range_fault(from, to) {
        Some(message) => Err(reply::error_view(500, message)),
        None => Ok(
            DiffRequestView {
                args: diff::git_diff_args(context_lines, diff::changes_between(from, to)),
                empty_message: RANGE_EMPTY@,
            },
        ),
    }
}

/// The diff of the working tree.
pub fn get_diff(app: &AppState) -> (r: DiffRequest)
    ensures
        r@ == tree_request(app.config.diff.context_lines as nat),
{
    DiffRequest {
        args: render_working_tree(app.config.diff.context_lines),
        empty_message: TREE_CLEAN,
    }
}

/// The diff of one commit, or an error page where its name is not one.
pub fn get_diff_commit(app: &AppState, query: &DiffCommitQuery) -> (r: Result<DiffRequest, Reply>)
    ensures
        request_view(r) == commit_request(
            app.config.diff.context_lines as nat,
            or_default(query.rev, "HEAD"@),
        ),
{
    match render_single_commit(str_or(&query.rev, "HEAD"), app.config.diff.context_lines) {
        Ok(args) => Ok(DiffRequest { args, empty_message: COMMIT_EMPTY }),
        Err(message) => Err(error_reply(500, message.as_str())),
    }
}

/// The diff between two commits, or an error page where one's name is not one.
pub fn get_diff_range(app: &AppState, query: &DiffRangeQuery) -> (r: Result<DiffRequest, Reply>)
    ensures
        request_view(r) == range_request(
            app.config.diff.context_lines as nat,
            or_default(query.from, "HEAD~1"@),
            or_default(query.to, "HEAD"@),
        ),
{
    let from: &str = str_or(&query.from, "HEAD~1");
    let to: &str = str_or(&query.to, "HEAD");
    match render_range(from, to, app.config.diff.context_lines) {
        Ok(args) => Ok(DiffRequest { args, empty_message: RANGE_EMPTY }),
        Err(message) => Err(error_reply(500, message.as_str())),
    }
}

/// The answer to a request for a diff: the page of `diff2html`, a notice where there is
/// nothing to show, or an error page.
pub open spec fn diff_answer(
    result: Result<DiffView, Seq<char>>,
    empty_message: Seq<char>,
) -> ReplyView {
    match result {
        Ok(d) => if d.is_empty {
            ReplyView::Html { status: 200, body: templates::no_diff_page(empty_message) }
        } else {
            ReplyView::Html { status: 200, body: d.html }
        },
        Err(message) => reply::error_view(500, message),
    }
}

/// Answers a request for a diff.
pub fn diff_reply(request: &DiffRequest, result: Result<DiffResult, String>) -> (r: Reply)
    ensures
        r@ == diff_answer(diff::diff_result(result), request.empty_message@),
{
    match result {
        Ok(d) => {
            if d.is_empty {
                Reply::Html { status: 200, body: render_no_diff(request.empty_message) }
            } else {
                Reply::Html { status: 200, body: d.html }
            }
        },
        Err(message) => error_reply(500, message.as_str()),
    }
}

} // verus!
