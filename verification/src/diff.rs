//! Diffs: what `git diff` is asked, and what `diff2html` makes of it.

use vstd::prelude::*;
use vstd::string::*;

use crate::process::{CommandOutcome, CommandView};
use crate::state;
use crate::state::{CommitSummary, CommitView};
use crate::text;
use crate::text::{char_is_alphanumeric, chars_of, decimal, from_utf8_lossy, lines, string_of, trim};

verus! {

/// A rendered diff.
#[derive(Debug)]
pub struct DiffResult {
    /// The page that `diff2html` has written.
    pub html: String,
    /// Whether `git diff` wrote nothing: there is nothing to show.
    pub is_empty: bool,
}

/// What a `DiffResult` says.
pub struct DiffView {
    pub html: Seq<char>,
    pub is_empty: bool,
}

impl View for DiffResult {
    type V = DiffView;

    open spec fn view(&self) -> DiffView {
        DiffView { html: self.html@, is_empty: self.is_empty }
    }
}

/// The view of the result of rendering a diff.
pub open spec fn diff_result(r: Result<DiffResult, String>) -> Result<DiffView, Seq<char>> {
    match r {
        Ok(d) => Ok(d@),
        Err(e) => Err(e@),
    }
}

// ── Revisions ───────────────────────────────────────────────────────────────

/// Whether a character may stand in a revision: letters, digits, and what git's own
/// notations need.
pub open spec fn allowed_in_revision(c: char) -> bool {
    if (c as u32) < 128 {
        ||| 'a' <= c <= 'z'
        ||| 'A' <= c <= 'Z'
        ||| '0' <= c <= '9'
        ||| c == '.' || c == '-' || c == '/' || c == '_' || c == '~' || c == '^' || c == '@' || c
            == '{' || c == '}'
    } else {
        text::is_alphanumeric(c)
    }
}

/// What is wrong with a revision, if something is.
pub open spec fn revision_fault(rev: Seq<char>) -> Option<Seq<char>> {
    if rev.len() == 0 {
        Some("Revision must not be empty"@)
    } else if rev[0] == '-' {
        Some("Revision must not start with '-'"@)
    } else if exists|i: int| 0 <= i < rev.len() && !allowed_in_revision(#[trigger] rev[i]) {
        Some("Revision contains disallowed characters: "@ + rev)
    } else {
        None
    }
}

fn char_allowed(c: char) -> (r: bool)
    ensures
        r == allowed_in_revision(c),
{
    char_is_alphanumeric(c) || c == '.' || c == '-' || c == '/' || c == '_' || c == '~' || c == '^'
        || c == '@' || c == '{' || c == '}'
}

/// Refuses a revision that could be taken for something else.
pub fn validate_revision(rev: &str) -> (r: Result<(), String>)
    ensures
        match r {
            Ok(_) => revision_fault(rev@) is None,
            Err(message) => revision_fault(rev@) == Some(message@),
        },
{
    let v = chars_of(rev);
    if v.len() == 0 {
        return Err("Revision must not be empty".to_owned());
    }
    if v[0] == '-' {
        return Err("Revision must not start with '-'".to_owned());
    }
    for i in 0..v.len()
        invariant
            v@ == rev@,
            v@.len() > 0,
            v@[0] != '-',
            forall|j: int| 0 <= j < i ==> allowed_in_revision(#[trigger] rev@[j]),
    {
        if !char_allowed(v[i]) {
            assert(!allowed_in_revision(rev@[i as int]));
            return Err("Revision contains disallowed characters: ".to_owned().concat(rev));
        }
    }
    Ok(())
}

// ── What git is asked ───────────────────────────────────────────────────────

/// The arguments for `git` that show `target` with so many lines of context.
pub open spec fn git_diff_args(context_lines: nat, target: Seq<char>) -> Seq<Seq<char>> {
    seq!["diff"@, "--stat"@, "-p"@, "-U"@ + text::digits(context_lines), target]
}

fn make_diff_args(context_lines: usize, target: &str) -> (r: Vec<String>)
    ensures
        text::strings(r@) == git_diff_args(context_lines as nat, target@),
{
    let mut args: Vec<String> = Vec::new();
    args.push("diff".to_owned());
    args.push("--stat".to_owned());
    args.push("-p".to_owned());
    args.push("-U".to_owned().concat(decimal(context_lines as u64).as_str()));
    args.push(target.to_owned());
    assert(text::strings(args@) =~= git_diff_args(context_lines as nat, target@));
    args
}

/// The changes that are not committed.
pub fn render_working_tree(context_lines: usize) -> (r: Vec<String>)
    ensures
        text::strings(r@) == git_diff_args(context_lines as nat, "HEAD"@),
{
    make_diff_args(context_lines, "HEAD")
}

/// The changes of the latest commit.
pub fn render_last_commit(context_lines: usize) -> (r: Vec<String>)
    ensures
        text::strings(r@) == git_diff_args(context_lines as nat, "HEAD~1..HEAD"@),
{
    make_diff_args(context_lines, "HEAD~1..HEAD")
}

/// A revision, or `HEAD` where none is named.
pub open spec fn revision_or_head(rev: Seq<char>) -> Seq<char> {
    if rev.len() == 0 {
        "HEAD"@
    } else {
        rev
    }
}

/// What `git` calls the changes from one revision to another.
pub open spec fn changes_between(from: Seq<char>, to: Seq<char>) -> Seq<char> {
    from + ".."@ + to
}

/// What `git` calls the changes that a revision has made to the one before.
pub open spec fn changes_of(rev: Seq<char>) -> Seq<char> {
    rev + "~1.."@ + rev
}

/// The changes of one commit, which is `HEAD` where `rev` is empty.
pub fn render_single_commit(rev: &str, context_lines: usize) -> (r: Result<Vec<String>, String>)
    ensures
        match r {
            Ok(args) => revision_fault(revision_or_head(rev@)) is None && text::strings(args@)
                == git_diff_args(context_lines as nat, changes_of(revision_or_head(rev@))),
            Err(message) => revision_fault(revision_or_head(rev@)) == Some(message@),
        },
{
    let rev: &str = if rev.is_empty() {
        "HEAD"
    } else {
        rev
    };
    match validate_revision(rev) {
        Err(message) => Err(message),
        Ok(_) => {
            let range = rev.to_owned().concat("~1..").concat(rev);
            Ok(make_diff_args(context_lines, range.as_str()))
        },
    }
}

/// What is wrong with a range of revisions, if something is.
pub open spec fn range_fault(from: Seq<char>, to: Seq<char>) -> Option<Seq<char>> {
    match revision_fault(from) {
        Some(message) => Some(message),
        None => revision_fault(to),
    }
}

/// The changes between two commits.
pub fn render_range(from: &str, to: &str, context_lines: usize) -> (r: Result<Vec<String>, String>)
    ensures
        match r {
            Ok(args) => range_fault(from@, to@) is None && text::strings(args@) == git_diff_args(
                context_lines as nat,
                changes_between(from@, to@),
            ),
            Err(message) => range_fault(from@, to@) == Some(message@),
        },
{
    match validate_revision(from) {
        Err(message) => Err(message),
        Ok(_) => match validate_revision(to) {
            Err(message) => Err(message),
            Ok(_) => {
                let range = from.to_owned().concat("..").concat(to);
                Ok(make_diff_args(context_lines, range.as_str()))
            },
        },
    }
}

// ── From git to the page ────────────────────────────────────────────────────

/// What is to be done after `git diff`.
#[derive(Debug)]
pub enum DiffStep {
    /// `diff2html` renders this patch.
    Render { patch: Vec<u8> },
    /// There is nothing more to do.
    Finished { result: Result<DiffResult, String> },
}

/// What a `DiffStep` says.
pub enum DiffStepView {
    Render { patch: Seq<u8> },
    Finished { result: Result<DiffView, Seq<char>> },
}

impl View for DiffStep {
    type V = DiffStepView;

    open spec fn view(&self) -> DiffStepView {
        match self {
            DiffStep::Render { patch } => DiffStepView::Render { patch: patch@ },
            DiffStep::Finished { result } => DiffStepView::Finished {
                result: diff_result(*result),
            },
        }
    }
}

/// What is said where `git` cannot be run.
pub const NO_GIT: &'static str =
    "Failed to spawn git — is git installed and is project_dir valid?";

/// What is said where `diff2html` cannot be run.
pub const NO_DIFF2HTML: &'static str =
    "Failed to spawn diff2html — is diff2html-cli installed? Run: npm install -g diff2html-cli";

/// What is said where `diff2html` cannot be awaited.
pub const LOST_DIFF2HTML: &'static str = "Failed to wait for diff2html to finish";

/// The step after `git diff`: a patch is rendered, no patch needs no rendering.
pub open spec fn step_after_git(outcome: CommandView) -> DiffStepView {
    match outcome {
        CommandView::NotStarted { .. } => DiffStepView::Finished { result: Err(NO_GIT@) },
        CommandView::Lost { .. } => DiffStepView::Finished { result: Err(NO_GIT@) },
        CommandView::Exited { success, stdout, stderr } => if !success {
            DiffStepView::Finished {
                result: Err("git diff failed: "@ + text::trimmed(text::lossy_text(stderr))),
            }
        } else if stdout.len() == 0 {
            DiffStepView::Finished {
                result: Ok(DiffView { html: Seq::empty(), is_empty: true }),
            }
        } else {
            DiffStepView::Render { patch: stdout }
        },
    }
}

/// Goes on after `git diff`.
pub fn run_diff(git: CommandOutcome) -> (r: DiffStep)
    ensures
        r@ == step_after_git(git@),
{
    match git {
        CommandOutcome::NotStarted { .. } => DiffStep::Finished { result: Err(NO_GIT.to_owned()) },
        CommandOutcome::Lost { .. } => DiffStep::Finished { result: Err(NO_GIT.to_owned()) },
        CommandOutcome::Exited { success, stdout, stderr } => {
            if !success {
                let reason = trim(from_utf8_lossy(stderr.as_slice()).as_str());
                DiffStep::Finished {
                    result: Err("git diff failed: ".to_owned().concat(reason.as_str())),
                }
            } else if stdout.is_empty() {
                DiffStep::Finished {
                    result: Ok(DiffResult { html: String::new(), is_empty: true }),
                }
            } else {
                DiffStep::Render { patch: stdout }
            }
        },
    }
}

/// The arguments for `diff2html`: line by line, highlighted, with a list of files that can be
/// folded, from standard input to standard output.
pub open spec fn diff2html_arguments() -> Seq<Seq<char>> {
    seq![
        "--style"@,
        "line"@,
        "--syntax-highlight"@,
        "--file-list-toggle"@,
        "-i"@,
        "stdin"@,
        "-o"@,
        "stdout"@,
    ]
}

/// The arguments for `diff2html`.
pub fn diff2html_args() -> (r: Vec<String>)
    ensures
        text::strings(r@) == diff2html_arguments(),
{
    let mut args: Vec<String> = Vec::new();
    args.push("--style".to_owned());
    args.push("line".to_owned());
    args.push("--syntax-highlight".to_owned());
    args.push("--file-list-toggle".to_owned());
    args.push("-i".to_owned());
    args.push("stdin".to_owned());
    args.push("-o".to_owned());
    args.push("stdout".to_owned());
    assert(text::strings(args@) =~= diff2html_arguments());
    args
}

/// The diff that `diff2html` has rendered: its page counts however it exited, and a patch
/// is something to show.
pub open spec fn diff_after_render(outcome: CommandView) -> Result<DiffView, Seq<char>> {
    match outcome {
        CommandView::NotStarted { .. } => Err(NO_DIFF2HTML@),
        CommandView::Lost { .. } => Err(LOST_DIFF2HTML@),
        CommandView::Exited { stdout, .. } => Ok(
            DiffView { html: text::lossy_text(stdout), is_empty: false },
        ),
    }
}

/// Goes on after `diff2html`.
pub fn finish_diff(diff2html: &CommandOutcome) -> (r: Result<DiffResult, String>)
    ensures
        diff_result(r) == diff_after_render(diff2html@),
{
    match diff2html {
        CommandOutcome::NotStarted { .. } => Err(NO_DIFF2HTML.to_owned()),
        CommandOutcome::Lost { .. } => Err(LOST_DIFF2HTML.to_owned()),
        CommandOutcome::Exited { stdout, .. } => Ok(
            DiffResult { html: from_utf8_lossy(stdout.as_slice()), is_empty: false },
        ),
    }
}

/// The diff that both commands make: `diff2html` runs only where there is a patch.
pub open spec fn whole_diff(git: CommandView, diff2html: CommandView) -> Result<
    DiffView,
    Seq<char>,
> {
    match step_after_git(git) {
        DiffStepView::Finished { result } => result,
        DiffStepView::Render { .. } => diff_after_render(diff2html),
    }
}

// ── Recent commits ──────────────────────────────────────────────────────────

/// The arguments for `git` that list so many commits, the latest first: each on a line of
/// its own, its SHA before its subject.
pub open spec fn git_log_args(max: nat) -> Seq<Seq<char>> {
    seq!["log"@, "--format=%H %s"@, "-n"@, text::digits(max)]
}

/// The arguments for `git` that list so many commits.
pub fn recent_commits_args(max: usize) -> (r: Vec<String>)
    ensures
        text::strings(r@) == git_log_args(max as nat),
{
    let mut args: Vec<String> = Vec::new();
    args.push("log".to_owned());
    args.push("--format=%H %s".to_owned());
    args.push("-n".to_owned());
    args.push(decimal(max as u64));
    assert(text::strings(args@) =~= git_log_args(max as nat));
    args
}

/// The predicate of the characters that are no blank.
pub open spec fn not_blank() -> spec_fn(char) -> bool {
    |c: char| c != ' '
}

/// The commit that a line names: its SHA stands before the first blank, its subject behind.
pub open spec fn commit_of_line(line: Seq<char>) -> CommitView {
    let n = text::run_len(line, not_blank());
    let sha = line.take(n);
    CommitView {
        sha,
        short_sha: state::shortened(sha),
        subject: if n < line.len() {
            line.skip(n + 1)
        } else {
            Seq::empty()
        },
    }
}

/// The commits that the first `max` lines of a log name.
pub open spec fn commits_of_log(log: Seq<char>, max: nat) -> Seq<CommitView> {
    let all = text::line_seq(log).map_values(|l: Seq<char>| commit_of_line(l));
    if all.len() <= max {
        all
    } else {
        all.take(max as int)
    }
}

fn parse_commit_line(line: &str) -> (r: CommitSummary)
    ensures
        r@ == commit_of_line(line@),
{
    let v = chars_of(line);
    let mut n: usize = 0;
    while n < v.len() && v[n] != ' '
        invariant
            n <= v@.len(),
            v@ == line@,
            forall|i: int| 0 <= i < n ==> #[trigger] line@[i] != ' ',
        decreases v@.len() - n,
    {
        n = n + 1;
    }
    proof {
        text::lemma_run_len(line@, not_blank(), n as int);
        assert(v@.subrange(0, n as int) =~= line@.take(n as int));
    }
    let sha = string_of(&v, 0, n);
    let subject: String = if n < v.len() {
        let s = string_of(&v, n + 1, v.len());
        assert(s@ =~= line@.skip(n + 1));
        s
    } else {
        String::new()
    };
    CommitSummary::new(sha, subject)
}

/// Reads the commits from a log.
pub fn parse_recent_commits(log: &str, max: usize) -> (r: Vec<CommitSummary>)
    ensures
        state::commits(r@) == commits_of_log(log@, max as nat),
        r@.len() <= max,
{
    let all = lines(log);
    let mut out: Vec<CommitSummary> = Vec::new();
    let ghost views = text::line_seq(log@);
    let ghost want = views.map_values(|l: Seq<char>| commit_of_line(l));
    let mut i: usize = 0;
    while i < all.len() && i < max
        invariant
            i <= all@.len(),
            i <= max,
            text::strings(all@) == views,
            want == views.map_values(|l: Seq<char>| commit_of_line(l)),
            state::commits(out@) == want.take(i as int),
            out@.len() == i,
        decreases all@.len() - i,
    {
        let ghost before = state::commits(out@);
        assert(views[i as int] == all@[i as int]@);
        let commit = parse_commit_line(all[i].as_str());
        assert(want[i as int] == commit@);
        out.push(commit);
        assert(state::commits(out@) =~= before.push(commit@));
        assert(want.take(i + 1) =~= want.take(i as int).push(want[i as int]));
        i = i + 1;
    }
    assert(want.len() == all@.len());
    assert(want.len() <= max ==> want.take(i as int) =~= want);
    out
}

/// The view of a list of commits, or of why there is none.
pub open spec fn commits_result(r: Result<Vec<CommitSummary>, String>) -> Result<
    Seq<CommitView>,
    Seq<char>,
> {
    match r {
        Ok(v) => Ok(state::commits(v@)),
        Err(e) => Err(e@),
    }
}

/// The commits that `git log` has listed, or why there are none.
pub open spec fn recent_commits(outcome: CommandView, max: nat) -> Result<
    Seq<CommitView>,
    Seq<char>,
> {
    match outcome {
        CommandView::NotStarted { error } => Err("Failed to spawn git: "@ + error),
        CommandView::Lost { error } => Err("Failed to spawn git: "@ + error),
        CommandView::Exited { success, stdout, stderr } => if success {
            Ok(commits_of_log(text::lossy_text(stdout), max))
        } else {
            Err("git log failed: "@ + text::trimmed(text::lossy_text(stderr)))
        },
    }
}

/// Reads the recent commits from the outcome of `git log`.
pub fn get_recent_commits(outcome: &CommandOutcome, max: usize) -> (r: Result<
    Vec<CommitSummary>,
    String,
>)
    ensures
        commits_result(r) == recent_commits(outcome@, max as nat),
{
    match outcome {
        CommandOutcome::NotStarted { error } => Err(
            "Failed to spawn git: ".to_owned().concat(error.as_str()),
        ),
        CommandOutcome::Lost { error } => Err(
            "Failed to spawn git: ".to_owned().concat(error.as_str()),
        ),
        CommandOutcome::Exited { success, stdout, stderr } => {
            if *success {
                Ok(parse_recent_commits(from_utf8_lossy(stdout.as_slice()).as_str(), max))
            } else {
                let reason = trim(from_utf8_lossy(stderr.as_slice()).as_str());
                Err("git log failed: ".to_owned().concat(reason.as_str()))
            }
        },
    }
}

/// The first commit of a log is the one that its first line names.
pub proof fn lemma_first_commit(sha: Seq<char>, subject: Seq<char>, earlier: Seq<char>, max: nat)
    requires
        max > 0,
        !sha.contains(' ') && !sha.contains('\n'),
        !subject.contains('\n'),
        subject.len() > 0 ==> subject.last() != '\r',
    ensures
        ({
            let log = sha + seq![' '] + subject + seq!['\n'] + earlier;
            &&& 0 < commits_of_log(log, max).len() <= max
            &&& commits_of_log(log, max)[0].sha == sha
            &&& commits_of_log(log, max)[0].subject == subject
        }),
{
    let line = sha + seq![' '] + subject;
    let log = line + seq!['\n'] + earlier;
    let n = line.len() as int;
    assert forall|i: int| 0 <= i < n implies text::not_newline()(#[trigger] log[i]) by {
        if i < sha.len() {
            assert(log[i] == sha[i]);
        } else if i > sha.len() {
            assert(log[i] == subject[i - sha.len() - 1]);
        }
    }
    text::lemma_run_len(log, text::not_newline(), n);
    assert(log.take(n) =~= line);
    assert(line.last() == if subject.len() > 0 {
        subject.last()
    } else {
        ' '
    });
    assert(text::line_seq(log)[0] == line);
    let m = sha.len() as int;
    assert forall|i: int| 0 <= i < m implies not_blank()(#[trigger] line[i]) by {
        assert(line[i] == sha[i]);
    }
    text::lemma_run_len(line, not_blank(), m);
    assert(line.take(m) =~= sha);
    assert(line.skip(m + 1) =~= subject);
    let all = text::line_seq(log).map_values(|l: Seq<char>| commit_of_line(l));
    assert(all[0] == commit_of_line(line));
}

// ── Laws ────────────────────────────────────────────────────────────────────

/// An accepted revision is not empty, holds only allowed characters, and neither it nor a
/// range that begins with it can be taken for an option.
pub proof fn law_revision_is_no_option(rev: Seq<char>, rest: Seq<char>)
    requires
        revision_fault(rev) is None,
    ensures
        rev.len() > 0,
        forall|i: int| 0 <= i < rev.len() ==> allowed_in_revision(#[trigger] rev[i]),
        (rev + rest)[0] != '-',
{
}

/// A revision that is refused is refused in a range on either side.
pub proof fn law_range_needs_both(from: Seq<char>, to: Seq<char>)
    ensures
        range_fault(from, to) is None <==> revision_fault(from) is None && revision_fault(to)
            is None,
{
}

/// A diff says that there is nothing to show if and only if `git diff` wrote nothing,
/// whatever `diff2html` wrote.
pub proof fn law_empty_means_no_patch(git: CommandView, diff2html: CommandView)
    ensures
        whole_diff(git, diff2html) matches Ok(d) ==> match git {
            CommandView::Exited { success, stdout, .. } => success && (d.is_empty
                <==> stdout.len() == 0),
            _ => false,
        },
{
}

} // verus!
