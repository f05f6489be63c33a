//! Laws of diffs: which revisions are accepted, what `git` is asked for, what is shown, and
//! which commits are listed.

use vstd::prelude::*;
use vstd::string::*;

use crate::diff;
use crate::diff::{DiffStepView, DiffView};
use crate::handlers::diff as pages_of_diffs;
use crate::laws::pages;
use crate::laws::text as texts;
use crate::process::CommandView;
use crate::reply::ReplyView;
use crate::state::CommitView;
use crate::text;

verus! {

// ── Revisions ───────────────────────────────────────────────────────────────

/// The characters of a revision: letters, digits, and those that name ancestors, branches and
/// reflog entries.  Beyond ASCII, what is alphanumeric.
pub proof fn law_characters_of_a_revision(c: char)
    ensures
        'a' <= c <= 'z' || 'A' <= c <= 'Z' || '0' <= c <= '9' ==> diff::allowed_in_revision(c),
        c == '.' || c == '-' || c == '/' || c == '_' || c == '~' || c == '^' || c == '@' || c == '{'
            || c == '}' ==> diff::allowed_in_revision(c),
        c as u32 >= 128 ==> diff::allowed_in_revision(c) == text::is_alphanumeric(c),
        c <= ',' || c == ':' || c == ';' || c == '<' || c == '=' || c == '>' || c == '?' || c == '['
            || c == '\\' || c == ']' || c == '`' || c == '|' || c == '\u{7f}'
            ==> !diff::allowed_in_revision(c),
{
}

/// Whether a text holds nothing but characters of a revision.
pub open spec fn all_allowed(rev: Seq<char>) -> bool {
    forall|i: int| 0 <= i < rev.len() ==> diff::allowed_in_revision(#[trigger] rev[i])
}

/// A revision is accepted exactly where it is not empty, does not begin with a hyphen and holds
/// only characters of a revision, whatever its length.  Otherwise the message says which of
/// these, the first in this order.
pub proof fn law_revisions_are_accepted(rev: Seq<char>)
    ensures
        rev.len() > 0 && rev[0] != '-' && all_allowed(rev) ==> diff::revision_fault(rev) is None,
        rev.len() == 0 ==> diff::revision_fault(rev) == Some("Revision must not be empty"@),
        rev.len() > 0 && rev[0] == '-' ==> diff::revision_fault(rev) == Some(
            "Revision must not start with '-'"@,
        ),
        rev.len() > 0 && rev[0] != '-' && !all_allowed(rev) ==> diff::revision_fault(rev) == Some(
            "Revision contains disallowed characters: "@ + rev,
        ),
{
}

/// A range is accepted exactly where both its ends are.  The first fault is the one that is
/// told.
pub proof fn law_ranges_are_accepted(from: Seq<char>, to: Seq<char>)
    ensures
        diff::range_fault(from, to) is None <==> diff::revision_fault(from) is None
            && diff::revision_fault(to) is None,
        diff::revision_fault(from) is Some ==> diff::range_fault(from, to) == diff::revision_fault(
            from,
        ),
        diff::revision_fault(from) is None ==> diff::range_fault(from, to) == diff::revision_fault(
            to,
        ),
{
}

/// Where no revision is named, it is `HEAD`; one that is named is taken as it is.
pub proof fn law_unnamed_revision(rev: Seq<char>)
    ensures
        rev.len() > 0 ==> diff::revision_or_head(rev) == rev,
        rev.len() == 0 ==> diff::revision_or_head(rev) == "HEAD"@,
{
}

/// What a query does not name is taken from the default, and what it names is taken as it is.
pub proof fn law_query_default(field: Option<String>, default: Seq<char>)
    ensures
        field matches Some(s) ==> pages_of_diffs::or_default(field, default) == s@,
        field is None ==> pages_of_diffs::or_default(field, default) == default,
{
}

// ── What `git` is asked for ─────────────────────────────────────────────────

/// `git diff` is asked for a summary and a patch, with that many lines of context, of that
/// target.
pub proof fn law_what_git_diff_is_asked(context_lines: nat, target: Seq<char>)
    ensures
        ({
            let args = diff::git_diff_args(context_lines, target);
            &&& args.len() == 5
            &&& args[0] == "diff"@
            &&& args[1] == "--stat"@
            &&& args[2] == "-p"@
            &&& text::begins_with(args[3], "-U"@)
            &&& texts::value(args[3].skip(2)) == context_lines
            &&& args[4] == target
        }),
{
    reveal_strlit("-U");
    let d = text::digits(context_lines);
    assert(("-U"@ + d).take(2) =~= "-U"@);
    assert(("-U"@ + d).skip(2) =~= d);
    texts::law_decimal(context_lines);
}

/// `git log` is asked for so many commits, one a line, each with its hash and its subject.
pub proof fn law_what_git_log_is_asked(max: nat)
    ensures
        ({
            let args = diff::git_log_args(max);
            &&& args.len() == 4
            &&& args[0] == "log"@
            &&& args[1] == "--format=%H %s"@
            &&& args[2] == "-n"@
            &&& texts::value(args[3]) == max
        }),
{
    texts::law_decimal(max);
}

// ── What is shown ───────────────────────────────────────────────────────────

/// The patch that `git` has written is rendered as it is.  No patch means that there is nothing
/// to show, and a failure is told as it was said.
pub proof fn law_patch_is_rendered(outcome: CommandView)
    ensures
        match outcome {
            CommandView::Exited { success, stdout, stderr } => {
                &&& success && stdout.len() > 0 ==> diff::step_after_git(outcome) == (
                DiffStepView::Render { patch: stdout })
                &&& success && stdout.len() == 0 ==> match diff::step_after_git(outcome) {
                    DiffStepView::Finished { result } => result matches Ok(d) && d.is_empty,
                    _ => false,
                }
                &&& !success ==> match diff::step_after_git(outcome) {
                    DiffStepView::Finished { result } => result matches Err(message) && texts::quotes(
                        message,
                        "git diff failed: "@,
                        text::lossy_text(stderr),
                    ),
                    _ => false,
                }
            },
            _ => diff::step_after_git(outcome) == (DiffStepView::Finished {
                result: Err("Failed to spawn git — is git installed and is project_dir valid?"@),
            }),
        },
{
    if let CommandView::Exited { stderr, .. } = outcome {
        texts::law_trimming(text::lossy_text(stderr));
    }
}

/// What `diff2html` has written is what is shown, all of it; and where it cannot be run, the
/// reader is told so.
pub proof fn law_rendered_page(outcome: CommandView)
    ensures
        match outcome {
            CommandView::Exited { stdout, .. } => diff::diff_after_render(outcome) == Ok::<
                DiffView,
                Seq<char>,
            >(DiffView { html: text::lossy_text(stdout), is_empty: false }),
            CommandView::NotStarted { .. } => diff::diff_after_render(outcome) == Err::<
                DiffView,
                Seq<char>,
            >(
                "Failed to spawn diff2html — is diff2html-cli installed? Run: npm install -g diff2html-cli"@,
            ),
            CommandView::Lost { .. } => diff::diff_after_render(outcome) == Err::<
                DiffView,
                Seq<char>,
            >("Failed to wait for diff2html to finish"@),
        },
{
}

/// A rendered diff is the page.  Where there is nothing to show the page says so, in the words
/// that belong to the request; and a failure is an error page.
pub proof fn law_answer_to_a_diff(result: Result<DiffView, Seq<char>>, empty_message: Seq<char>)
    ensures
        ({
            let answer = pages_of_diffs::diff_answer(result, empty_message);
            match result {
                Ok(d) => if d.is_empty {
                    pages::tells(answer, 200, empty_message)
                } else {
                    answer == (ReplyView::Html { status: 200, body: d.html })
                },
                Err(message) => pages::tells(answer, 500, message),
            }
        }),
{
    pages::law_notice(empty_message);
    if let Err(message) = result {
        pages::law_error_page(500, message);
    }
}

// ── Recent commits ──────────────────────────────────────────────────────────

/// A commit as `git log` knows it.
pub struct Logged {
    pub sha: Seq<char>,
    pub subject: Seq<char>,
}

/// Whether `git log` writes such a commit: its hash is a word, and its subject is one line.
pub open spec fn can_be_logged(c: Logged) -> bool {
    &&& forall|i: int| 0 <= i < c.sha.len() ==> #[trigger] c.sha[i] != ' ' && c.sha[i] != '\n'
    &&& forall|i: int| 0 <= i < c.subject.len() ==> #[trigger] c.subject[i] != '\n'
    &&& c.subject.len() > 0 ==> c.subject.last() != '\r'
}

/// The line of a commit.
pub open spec fn log_line(c: Logged) -> Seq<char> {
    c.sha + seq![' '] + c.subject
}

/// What `git log` writes of these commits.
pub open spec fn log_text(commits: Seq<Logged>) -> Seq<char>
    decreases commits.len(),
{
    if commits.len() == 0 {
        seq![]
    } else {
        log_line(commits[0]) + seq!['\n'] + log_text(commits.drop_first())
    }
}

/// A line of the log gives the hash, the beginning of the hash and the subject, all of it.
pub proof fn law_line_of_the_log(c: Logged)
    requires
        can_be_logged(c),
    ensures
        diff::commit_of_line(log_line(c)).sha == c.sha,
        diff::commit_of_line(log_line(c)).subject == c.subject,
        diff::commit_of_line(log_line(c)).short_sha == crate::state::shortened(c.sha),
{
    let line = log_line(c);
    let n = c.sha.len() as int;
    assert forall|i: int| 0 <= i < n implies diff::not_blank()(#[trigger] line[i]) by {
        assert(line[i] == c.sha[i]);
    }
    assert(line[n] == ' ');
    assert(!diff::not_blank()(line[n]));
    text::lemma_run_len(line, diff::not_blank(), n);
    assert(line.take(n) =~= c.sha);
    assert(line.skip(n + 1) =~= c.subject);
}

proof fn lemma_lines_of_the_log(commits: Seq<Logged>)
    requires
        forall|i: int| 0 <= i < commits.len() ==> can_be_logged(#[trigger] commits[i]),
    ensures
        text::line_seq(log_text(commits)) == commits.map_values(|c: Logged| log_line(c)),
    decreases commits.len(),
{
    let lines = commits.map_values(|c: Logged| log_line(c));
    if commits.len() == 0 {
        assert(text::line_seq(log_text(commits)) =~= lines);
    } else {
        let c = commits[0];
        let rest = commits.drop_first();
        let line = log_line(c);
        assert forall|i: int| 0 <= i < rest.len() implies can_be_logged(#[trigger] rest[i]) by {
            assert(rest[i] == commits[i + 1]);
        }
        lemma_lines_of_the_log(rest);
        assert(can_be_logged(c));
        assert forall|i: int| 0 <= i < line.len() implies #[trigger] line[i] != '\n' by {
            if i < c.sha.len() {
                assert(line[i] == c.sha[i]);
            } else if i > c.sha.len() {
                assert(line[i] == c.subject[i - c.sha.len() - 1]);
            }
        }
        if c.subject.len() > 0 {
            assert(line.last() == c.subject.last());
        } else {
            assert(line.last() == ' ');
        }
        texts::law_lines(line, log_text(rest));
        assert(lines =~= seq![line] + rest.map_values(|c: Logged| log_line(c)));
    }
}

/// The recent commits are those that `git log` has written, in its order, each with its hash
/// and its subject: all of them, or as many as are kept.
pub proof fn law_log_is_read_back(commits: Seq<Logged>, max: nat, k: int)
    requires
        forall|i: int| 0 <= i < commits.len() ==> can_be_logged(#[trigger] commits[i]),
    ensures
        ({
            let read = diff::commits_of_log(log_text(commits), max);
            &&& commits.len() <= max ==> read.len() == commits.len()
            &&& commits.len() > max ==> read.len() == max
            &&& 0 <= k < read.len() ==> {
                &&& read[k].sha == commits[k].sha
                &&& read[k].subject == commits[k].subject
                &&& read[k].short_sha == crate::state::shortened(commits[k].sha)
            }
        }),
{
    lemma_lines_of_the_log(commits);
    if 0 <= k < commits.len() {
        assert(can_be_logged(commits[k]));
        law_line_of_the_log(commits[k]);
    }
}

/// The list of recent commits is read from what `git log` has written; where it fails, the
/// reason is the one that there is.
pub proof fn law_recent_commits(outcome: CommandView, max: nat)
    ensures
        match outcome {
            CommandView::Exited { success, stdout, stderr } => {
                &&& success ==> diff::recent_commits(outcome, max) == Ok::<
                    Seq<CommitView>,
                    Seq<char>,
                >(diff::commits_of_log(text::lossy_text(stdout), max))
                &&& !success ==> (diff::recent_commits(outcome, max) matches Err(message) && texts::quotes(
                    message,
                    "git log failed: "@,
                    text::lossy_text(stderr),
                ))
            },
            CommandView::NotStarted { error } => diff::recent_commits(outcome, max) == Err::<
                Seq<CommitView>,
                Seq<char>,
            >("Failed to spawn git: "@ + error),
            CommandView::Lost { error } => diff::recent_commits(outcome, max) == Err::<
                Seq<CommitView>,
                Seq<char>,
            >("Failed to spawn git: "@ + error),
        },
{
    if let CommandView::Exited { stderr, .. } = outcome {
        texts::law_trimming(text::lossy_text(stderr));
    }
}

// ── Requests for diffs ──────────────────────────────────────────────────────

/// The diff of the working tree is the one to the last commit.
pub proof fn law_diff_of_the_tree(context_lines: nat)
    ensures
        pages_of_diffs::tree_request(context_lines).args == diff::git_diff_args(
            context_lines,
            "HEAD"@,
        ),
        pages_of_diffs::tree_request(context_lines).empty_message
            == "No uncommitted changes in the working tree."@,
{
}

/// The diff of a commit is the one from the commit before, where the commit can be a revision.
/// Otherwise the answer says why it is none.
pub proof fn law_diff_of_a_commit(context_lines: nat, rev: Seq<char>)
    ensures
        ({
            let request = pages_of_diffs::commit_request(context_lines, rev);
            &&& rev.len() == 0 ==> request == pages_of_diffs::commit_request(
                context_lines,
                "HEAD"@,
            )
            &&& rev.len() > 0 && diff::revision_fault(rev) is None ==> match request {
                Ok(r) => {
                    &&& r.args == diff::git_diff_args(context_lines, rev + "~1.."@ + rev)
                    &&& r.empty_message == "No changes in that commit."@
                },
                Err(_) => false,
            }
            &&& rev.len() > 0 && diff::revision_fault(rev) is Some ==> match request {
                Ok(_) => false,
                Err(page) => pages::tells(page, 500, diff::revision_fault(rev)->0),
            }
        }),
{
    reveal_strlit("HEAD");
    if diff::revision_fault(rev) is Some {
        pages::law_error_page(500, diff::revision_fault(rev)->0);
    }
}

/// The diff of a range is the one from its first end to its second, where both can be
/// revisions.  Otherwise the answer says why one is none.
pub proof fn law_diff_of_a_range(context_lines: nat, from: Seq<char>, to: Seq<char>)
    ensures
        ({
            let request = pages_of_diffs::range_request(context_lines, from, to);
            match diff::range_fault(from, to) {
                None => match request {
                    Ok(r) => {
                        &&& r.args == diff::git_diff_args(context_lines, from + ".."@ + to)
                        &&& r.empty_message == "No changes in the specified range."@
                    },
                    Err(_) => false,
                },
                Some(message) => match request {
                    Ok(_) => false,
                    Err(page) => pages::tells(page, 500, message),
                },
            }
        }),
{
    if let Some(message) = diff::range_fault(from, to) {
        pages::law_error_page(500, message);
    }
}

/// `diff2html` reads the patch from its input and writes the page to its output.
pub proof fn law_what_diff2html_is_asked()
    ensures
        diff::diff2html_arguments() == seq![
            "--style"@,
            "line"@,
            "--syntax-highlight"@,
            "--file-list-toggle"@,
            "-i"@,
            "stdin"@,
            "-o"@,
            "stdout"@,
        ],
{
}

} // verus!
