//! The commit page, and the request that commits.
//!
//! A commit takes several commands: `git status`, `par`, `git add`, `git commit`.  The
//! request is a machine: each step says which command is due, and the outcome of the
//! command leads to the next step.

use vstd::prelude::*;
use vstd::string::*;
use vstd::utf8::*;

use crate::auth;
use crate::auth::check_password;
use crate::diff;
use crate::diff::{get_recent_commits, recent_commits_args};
use crate::porcelain;
use crate::porcelain::read_path;
use crate::process::{CommandOutcome, CommandView};
use crate::reply;
use crate::reply::{error_reply, home_reply, Reply, ReplyView};
use crate::state::{AppState, AppView};
use crate::templates;
use crate::templates::render_commit_page;
use crate::text;
use crate::text::{clone_strings, cut, from_utf8_lossy, join, len_in_bytes, lines, text_eq, trim};

verus! {

// ── Changed files ───────────────────────────────────────────────────────────

/// A file that `git status --porcelain` lists.
#[derive(Debug)]
pub struct ChangedFile {
    /// The two characters that tell what happened to the file.
    pub status: String,
    /// The path of the file in the repository.
    pub path: String,
}

/// What a `ChangedFile` says.
pub struct ChangedFileView {
    pub status: Seq<char>,
    pub path: Seq<char>,
}

impl View for ChangedFile {
    type V = ChangedFileView;

    open spec fn view(&self) -> ChangedFileView {
        ChangedFileView { status: self.status@, path: self.path@ }
    }
}

/// The views of a list of changed files.
pub open spec fn file_views(v: Seq<ChangedFile>) -> Seq<ChangedFileView> {
    v.map_values(|f: ChangedFile| f@)
}

/// Whether some file of the list has this path.
pub open spec fn is_listed(files: Seq<ChangedFileView>, path: Seq<char>) -> bool {
    exists|i: int| 0 <= i < files.len() && (#[trigger] files[i]).path == path
}

/// Whether a line of the listing names a file.
pub open spec fn names_file(line: Seq<char>) -> bool {
    text::byte_len(line) >= 4
}

/// Whether a line that names a file can be taken apart.
pub open spec fn splits(line: Seq<char>) -> bool {
    names_file(line) ==> text::cuts_at(line, 2) && text::cuts_at(line, 3)
}

/// The file that a line names: two bytes of status, one between, and what says the path.
pub open spec fn file_of_line(line: Seq<char>) -> ChangedFileView {
    let status = text::head_bytes(line, 2);
    ChangedFileView { status, path: porcelain::path_of(status, text::tail_bytes(line, 3)) }
}

/// The files that the lines of a listing name.
pub open spec fn files_of_lines(listing: Seq<Seq<char>>) -> Seq<ChangedFileView>
    decreases listing.len(),
{
    if listing.len() == 0 {
        seq![]
    } else if names_file(listing.last()) {
        files_of_lines(listing.drop_last()).push(file_of_line(listing.last()))
    } else {
        files_of_lines(listing.drop_last())
    }
}

/// Whether a listing can be taken apart: in no line that names a file does a character
/// straddle the end of the status or the beginning of the path.
pub open spec fn well_formed_listing(listing: Seq<char>) -> bool {
    forall|i: int|
        0 <= i < text::line_seq(listing).len() ==> splits(#[trigger] text::line_seq(listing)[i])
}

/// The files that a listing names.
pub open spec fn files_of_listing(listing: Seq<char>) -> Seq<ChangedFileView> {
    files_of_lines(text::line_seq(listing))
}

fn line_splits(line: &str) -> (r: bool)
    ensures
        r == splits(line@),
{
    len_in_bytes(line) < 4 || (line.is_char_boundary(2) && line.is_char_boundary(3))
}

/// Whether a listing can be taken apart.
pub fn can_parse_porcelain(listing: &str) -> (r: bool)
    ensures
        r == well_formed_listing(listing@),
{
    let all = lines(listing);
    let ghost views = text::line_seq(listing@);
    for i in 0..all.len()
        invariant
            text::strings(all@) == views,
            views == text::line_seq(listing@),
            forall|j: int| 0 <= j < i ==> splits(#[trigger] views[j]),
    {
        assert(views[i as int] == all@[i as int]@);
        if !line_splits(all[i].as_str()) {
            return false;
        }
    }
    assert(views.len() == all@.len());
    true
}

/// Reads the changed files from the text of `git status --porcelain`.
pub fn parse_porcelain(listing: &str) -> (r: Vec<ChangedFile>)
    requires
        well_formed_listing(listing@),
    ensures
        file_views(r@) == files_of_listing(listing@),
{
    let all = lines(listing);
    let mut out: Vec<ChangedFile> = Vec::new();
    let ghost views = text::line_seq(listing@);
    assert(file_views(out@) =~= files_of_lines(views.take(0)));
    for i in 0..all.len()
        invariant
            well_formed_listing(listing@),
            text::strings(all@) == views,
            views == text::line_seq(listing@),
            file_views(out@) == files_of_lines(views.take(i as int)),
    {
        let line: &str = all[i].as_str();
        let ghost before = file_views(out@);
        proof {
            assert(views[i as int] == line@);
            assert(splits(views[i as int]));
            assert(views.take(i + 1).drop_last() =~= views.take(i as int));
            assert(views.take(i + 1).last() == line@);
        }
        if len_in_bytes(line) >= 4 {
            let status = cut(line, 2).0.to_owned();
            let path = read_path(status.as_str(), cut(line, 3).1);
            let file = ChangedFile { status, path };
            out.push(file);
            assert(file_views(out@) =~= before.push(file@));
        }
    }
    assert(views.take(views.len() as int) =~= views);
    out
}

/// What a listing comes to.
pub enum ListingView {
    /// The changed files.
    Files { files: Seq<ChangedFileView> },
    /// `git status` failed, and this is why.
    Failed { message: Seq<char> },
    /// A line of the listing cannot be taken apart.
    Malformed,
}

/// What the outcome of `git status --porcelain` comes to.
pub open spec fn listing_of(outcome: CommandView) -> ListingView {
    match outcome {
        CommandView::NotStarted { error } => ListingView::Failed {
            message: "Failed to spawn git: "@ + error,
        },
        CommandView::Lost { error } => ListingView::Failed {
            message: "Failed to spawn git: "@ + error,
        },
        CommandView::Exited { success, stdout, stderr } => if !success {
            ListingView::Failed {
                message: "git status --porcelain failed: "@ + text::trimmed(
                    text::lossy_text(stderr),
                ),
            }
        } else if well_formed_listing(text::lossy_text(stdout)) {
            ListingView::Files { files: files_of_listing(text::lossy_text(stdout)) }
        } else {
            ListingView::Malformed
        },
    }
}

/// Why there is no list of changed files.
#[derive(Debug)]
pub enum ListFailure {
    /// `git status` failed, and this is why.
    Failed { message: String },
    /// A line of the listing cannot be taken apart.
    Malformed,
}

/// The view of a list of changed files, or of why there is none.
pub open spec fn listing_view(r: Result<Vec<ChangedFile>, ListFailure>) -> ListingView {
    match r {
        Ok(files) => ListingView::Files { files: file_views(files@) },
        Err(ListFailure::Failed { message }) => ListingView::Failed { message: message@ },
        Err(ListFailure::Malformed) => ListingView::Malformed,
    }
}

/// The arguments for `git` that list the changed files.
pub fn status_args() -> (r: Vec<String>)
    ensures
        text::strings(r@) == seq!["status"@, "--porcelain"@],
{
    let mut args: Vec<String> = Vec::new();
    args.push("status".to_owned());
    args.push("--porcelain".to_owned());
    assert(text::strings(args@) =~= seq!["status"@, "--porcelain"@]);
    args
}

/// Reads the changed files from the outcome of `git status --porcelain`.
pub fn list_changed_files(outcome: &CommandOutcome) -> (r: Result<Vec<ChangedFile>, ListFailure>)
    ensures
        listing_view(r) == listing_of(outcome@),
{
    match outcome {
        CommandOutcome::NotStarted { error } => Err(
            ListFailure::Failed {
                message: "Failed to spawn git: ".to_owned().concat(error.as_str()),
            },
        ),
        CommandOutcome::Lost { error } => Err(
            ListFailure::Failed {
                message: "Failed to spawn git: ".to_owned().concat(error.as_str()),
            },
        ),
        CommandOutcome::Exited { success, stdout, stderr } => {
            if !*success {
                let reason = trim(from_utf8_lossy(stderr.as_slice()).as_str());
                Err(
                    ListFailure::Failed {
                        message: "git status --porcelain failed: ".to_owned().concat(
                            reason.as_str(),
                        ),
                    },
                )
            } else {
                let listing = from_utf8_lossy(stdout.as_slice());
                if can_parse_porcelain(listing.as_str()) {
                    Ok(parse_porcelain(listing.as_str()))
                } else {
                    Err(ListFailure::Malformed)
                }
            }
        },
    }
}

// ── The commit page ─────────────────────────────────────────────────────────

/// The answer where `git status` fails.
pub open spec fn status_failure(message: Seq<char>) -> ReplyView {
    reply::error_view(500, "git status failed: "@ + message)
}

fn say_status_failure(message: &str) -> (r: Reply)
    ensures
        r@ == status_failure(message@),
{
    error_reply(500, "git status failed: ".to_owned().concat(message).as_str())
}

/// The commit page, as an answer.  `None`: a line of the listing cannot be taken apart.
pub open spec fn page_answer(app: AppView, outcome: CommandView) -> Option<ReplyView> {
    match listing_of(outcome) {
        ListingView::Files { files } => Some(
            ReplyView::Html {
                status: 200,
                body: templates::commit_page(
                    files,
                    app.prompts,
                    app.config.server.password@.len() > 0,
                ),
            },
        ),
        ListingView::Failed { message } => Some(status_failure(message)),
        ListingView::Malformed => None,
    }
}

/// Answers a request for the commit page, from the outcome of `git status --porcelain`.
/// `None`: a line of the listing cannot be taken apart.
pub fn get_commit(app: &AppState, outcome: &CommandOutcome) -> (r: Option<Reply>)
    ensures
        match page_answer(app@, outcome@) {
            Some(page) => r matches Some(reply) && reply@ == page,
            None => r is None,
        },
{
    let password_enabled: bool = !app.config.server.password.as_str().is_empty();
    match list_changed_files(outcome) {
        Ok(files) => Some(
            Reply::Html {
                status: 200,
                body: render_commit_page(&files, &app.prompts_since_commit, password_enabled),
            },
        ),
        Err(ListFailure::Failed { message }) => Some(say_status_failure(message.as_str())),
        Err(ListFailure::Malformed) => None,
    }
}

// ── The form ────────────────────────────────────────────────────────────────

/// The form of a request to commit.
#[derive(Debug)]
pub struct CommitForm {
    /// The subject of the commit.
    pub message: String,
    /// The password, on servers that ask for one.
    pub password: String,
    /// The paths of the selected files.
    pub files: Vec<String>,
    /// Anything but the empty text: the prompts are to be appended.
    pub include_prompts: String,
}

/// What a `CommitForm` says.
pub struct CommitFormView {
    pub message: Seq<char>,
    pub password: Seq<char>,
    pub files: Seq<Seq<char>>,
    pub include_prompts: Seq<char>,
}

impl View for CommitForm {
    type V = CommitFormView;

    open spec fn view(&self) -> CommitFormView {
        CommitFormView {
            message: self.message@,
            password: self.password@,
            files: text::strings(self.files@),
            include_prompts: self.include_prompts@,
        }
    }
}

/// A submitted field: its name and its value.
#[derive(Debug)]
pub struct Field {
    pub name: String,
    pub value: String,
}

/// The number of fields with this name.
pub open spec fn occurrences(fields: Seq<Field>, name: Seq<char>) -> nat
    decreases fields.len(),
{
    if fields.len() == 0 {
        0
    } else if fields.last().name@ == name {
        occurrences(fields.drop_last(), name) + 1
    } else {
        occurrences(fields.drop_last(), name)
    }
}

/// The value of the field with this name, if there is one.
pub open spec fn value_of(fields: Seq<Field>, name: Seq<char>) -> Option<Seq<char>>
    decreases fields.len(),
{
    if fields.len() == 0 {
        None
    } else if fields.last().name@ == name {
        Some(fields.last().value@)
    } else {
        value_of(fields.drop_last(), name)
    }
}

proof fn lemma_occurrences(fields: Seq<Field>, name: Seq<char>, n: int)
    requires
        0 <= n <= fields.len(),
    ensures
        occurrences(fields.take(n), name) <= occurrences(fields, name),
    decreases fields.len() - n,
{
    if n < fields.len() {
        lemma_occurrences(fields, name, n + 1);
        assert(fields.take(n + 1).drop_last() =~= fields.take(n));
    } else {
        assert(fields.take(n) =~= fields);
    }
}

/// Whether the fields are those of a form: a message, and no more than one of each field
/// that is not a file.
pub open spec fn is_form(fields: Seq<Field>) -> bool {
    &&& occurrences(fields, "message"@) == 1
    &&& occurrences(fields, "password"@) <= 1
    &&& occurrences(fields, "include_prompts"@) <= 1
}

/// Whether a field names a selected file.
pub open spec fn selects_file(name: Seq<char>) -> bool {
    name == "files[]"@ || name == "files"@
}

/// The selected files, in the order of their fields.
pub open spec fn selected_files(fields: Seq<Field>) -> Seq<Seq<char>>
    decreases fields.len(),
{
    if fields.len() == 0 {
        seq![]
    } else if selects_file(fields.last().name@) {
        selected_files(fields.drop_last()).push(fields.last().value@)
    } else {
        selected_files(fields.drop_last())
    }
}

/// A value, or the empty text where there is none.
pub open spec fn or_empty(value: Option<Seq<char>>) -> Seq<char> {
    match value {
        Some(s) => s,
        None => Seq::empty(),
    }
}

/// Whether an optional text holds what the field with this name says, which occurs once at
/// most.
spec fn holds(value: Option<String>, fields: Seq<Field>, name: Seq<char>) -> bool {
    &&& text::opt_text(value) == value_of(fields, name)
    &&& occurrences(fields, name) == if value is Some {
        1nat
    } else {
        0nat
    }
}

fn text_or_empty(value: Option<String>) -> (r: String)
    ensures
        r@ == or_empty(text::opt_text(value)),
{
    match value {
        Some(s) => s,
        None => String::new(),
    }
}

impl CommitForm {
    /// Reads the form from the submitted fields, if they are those of one.
    pub fn from_fields(fields: Vec<Field>) -> (r: Option<CommitForm>)
        ensures
            match r {
                Some(form) => is_form(fields@) && Some(form@.message) == value_of(
                    fields@,
                    "message"@,
                ) && form@.password == or_empty(value_of(fields@, "password"@)) && form@.files
                    == selected_files(fields@) && form@.include_prompts == or_empty(
                    value_of(fields@, "include_prompts"@),
                ),
                None => !is_form(fields@),
            },
    {
        let mut message: Option<String> = None;
        let mut password: Option<String> = None;
        let mut include_prompts: Option<String> = None;
        let mut files: Vec<String> = Vec::new();
        proof {
            reveal_strlit("message");
            reveal_strlit("password");
            reveal_strlit("include_prompts");
            reveal_strlit("files[]");
            reveal_strlit("files");
            assert("message"@.len() == 7 && "password"@.len() == 8 && "include_prompts"@.len() == 15
                && "files[]"@.len() == 7 && "files"@.len() == 5);
            assert("message"@[0] == 'm' && "files[]"@[0] == 'f');
            assert(text::strings(files@) =~= selected_files(fields@.take(0)));
        }
        for i in 0..fields.len()
            invariant
                "message"@ != "files[]"@,
                "message"@.len() == 7,
                "password"@.len() == 8,
                "include_prompts"@.len() == 15,
                "files[]"@.len() == 7,
                "files"@.len() == 5,
                holds(message, fields@.take(i as int), "message"@),
                holds(password, fields@.take(i as int), "password"@),
                holds(include_prompts, fields@.take(i as int), "include_prompts"@),
                text::strings(files@) == selected_files(fields@.take(i as int)),
        {
            let field = &fields[i];
            let ghost before = text::strings(files@);
            proof {
                assert(fields@.take(i + 1).drop_last() =~= fields@.take(i as int));
                assert(fields@.take(i + 1).last() == *field);
                lemma_occurrences(fields@, "message"@, i + 1);
                lemma_occurrences(fields@, "password"@, i + 1);
                lemma_occurrences(fields@, "include_prompts"@, i + 1);
            }
            let name: &str = field.name.as_str();
            if text_eq(name, "message") {
                if message.is_some() {
                    return None;
                }
                message = Some(field.value.clone());
            } else if text_eq(name, "password") {
                if password.is_some() {
                    return None;
                }
                password = Some(field.value.clone());
            } else if text_eq(name, "include_prompts") {
                if include_prompts.is_some() {
                    return None;
                }
                include_prompts = Some(field.value.clone());
            } else if text_eq(name, "files[]") || text_eq(name, "files") {
                files.push(field.value.clone());
                assert(text::strings(files@) =~= before.push(field.value@));
            }
        }
        assert(fields@.take(fields@.len() as int) =~= fields@);
        match message {
            Some(message) => Some(
                CommitForm {
                    message,
                    password: text_or_empty(password),
                    files,
                    include_prompts: text_or_empty(include_prompts),
                },
            ),
            None => None,
        }
    }
}

// ── The commit message ──────────────────────────────────────────────────────

/// What stands between the subject and the prompts.
pub const PROMPTS_HEADING: &'static str = "\n\nPrompts since last commit:\n\n";

/// The prompts as they are handed to `par`: with a blank line between each.
pub open spec fn prompt_body(prompts: Seq<Seq<char>>) -> Seq<char> {
    text::joined(prompts, "\n\n"@)
}

/// A body after `par`, or as it was where `par` failed or wrote nothing.
pub open spec fn reflowed(body: Seq<char>, outcome: CommandView) -> Seq<char> {
    match outcome {
        CommandView::Exited { success, stdout, .. } => if success && stdout.len() > 0 {
            text::lossy_text(stdout)
        } else {
            body
        },
        CommandView::NotStarted { .. } => body,
        CommandView::Lost { .. } => body,
    }
}

/// The message of a commit with a body.
pub open spec fn commit_message(subject: Seq<char>, body: Seq<char>) -> Seq<char> {
    subject + PROMPTS_HEADING@ + body
}

/// The argument for `par`: the width of a line.
pub fn par_args() -> (r: Vec<String>)
    ensures
        text::strings(r@) == seq!["72"@],
{
    let mut args: Vec<String> = Vec::new();
    args.push("72".to_owned());
    assert(text::strings(args@) =~= seq!["72"@]);
    args
}

/// Takes the body that `par` wrote, or the body as it was.
pub fn reflow_with_par(body: String, outcome: &CommandOutcome) -> (r: String)
    ensures
        r@ == reflowed(body@, outcome@),
{
    match outcome {
        CommandOutcome::Exited { success, stdout, .. } => {
            if *success && stdout.len() > 0 {
                from_utf8_lossy(stdout.as_slice())
            } else {
                body
            }
        },
        CommandOutcome::NotStarted { .. } => body,
        CommandOutcome::Lost { .. } => body,
    }
}

/// Builds the message of a commit with a body.
pub fn build_commit_message(subject: &str, body: &str) -> (r: String)
    ensures
        r@ == commit_message(subject@, body@),
{
    subject.to_owned().concat(PROMPTS_HEADING).concat(body)
}

// ── The commit ──────────────────────────────────────────────────────────────

/// How far a request to commit has come.
#[derive(Debug)]
pub enum CommitStep {
    /// `git status` is to be run, and the files are to be looked for in its listing.
    Listing { subject: String, files: Vec<String>, with_prompts: bool },
    /// `par` is to be run on the body.
    Reflowing { subject: String, files: Vec<String>, body: String },
    /// `git add` is to be run on the files.
    Staging { files: Vec<String>, message: String },
    /// `git commit` is to be run with the message as its input.
    Committing { message: String },
    /// The commit is made: `git log` is to be run for the list of recent commits.
    Refreshing,
    /// The request is answered.
    Finished { reply: Reply },
    /// A line of the listing cannot be taken apart.
    Malformed,
}

/// What a `CommitStep` says.
pub enum CommitStepView {
    Listing { subject: Seq<char>, files: Seq<Seq<char>>, with_prompts: bool },
    Reflowing { subject: Seq<char>, files: Seq<Seq<char>>, body: Seq<char> },
    Staging { files: Seq<Seq<char>>, message: Seq<char> },
    Committing { message: Seq<char> },
    Refreshing,
    Finished { reply: ReplyView },
    Malformed,
}

impl View for CommitStep {
    type V = CommitStepView;

    open spec fn view(&self) -> CommitStepView {
        match self {
            CommitStep::Listing { subject, files, with_prompts } => CommitStepView::Listing {
                subject: subject@,
                files: text::strings(files@),
                with_prompts: *with_prompts,
            },
            CommitStep::Reflowing { subject, files, body } => CommitStepView::Reflowing {
                subject: subject@,
                files: text::strings(files@),
                body: body@,
            },
            CommitStep::Staging { files, message } => CommitStepView::Staging {
                files: text::strings(files@),
                message: message@,
            },
            CommitStep::Committing { message } => CommitStepView::Committing { message: message@ },
            CommitStep::Refreshing => CommitStepView::Refreshing,
            CommitStep::Finished { reply } => CommitStepView::Finished { reply: reply@ },
            CommitStep::Malformed => CommitStepView::Malformed,
        }
    }
}

/// What is said where the subject is blank.
pub const SUBJECT_EMPTY: &'static str = "Commit subject must not be empty.";

/// What is said where a run is under way.
pub const RUN_IN_PROGRESS: &'static str = "Cannot commit while an agent run is in progress.";

/// What is said where no file is selected.
pub const NO_FILES: &'static str = "No files selected. Please select at least one file to commit.";

/// The step that ends with an error page.
pub open spec fn refused(status: u16, message: Seq<char>) -> CommitStepView {
    CommitStepView::Finished { reply: reply::error_view(status, message) }
}

fn refuse(status: u16, message: &str) -> (r: CommitStep)
    ensures
        r@ == refused(status, message@),
{
    CommitStep::Finished { reply: error_reply(status, message) }
}

/// The first step of a request to commit.
pub open spec fn commit_begun(app: AppView, form: CommitFormView) -> CommitStepView {
    if !auth::admits(app.config.server.password@, form.password) {
        refused(403, auth::WRONG_PASSWORD@)
    } else if text::trimmed(form.message).len() == 0 {
        refused(400, SUBJECT_EMPTY@)
    } else if app.run.status is Running {
        refused(409, RUN_IN_PROGRESS@)
    } else if form.files.len() == 0 {
        refused(400, NO_FILES@)
    } else {
        CommitStepView::Listing {
            subject: text::trimmed(form.message),
            files: form.files,
            with_prompts: form.include_prompts.len() > 0,
        }
    }
}

/// Begins a request to commit.
pub fn post_commit(app: &AppState, form: CommitForm) -> (r: CommitStep)
    ensures
        r@ == commit_begun(app@, form@),
{
    if let Some(reply) = check_password(&app.config.server, form.password.as_str()) {
        return CommitStep::Finished { reply };
    }
    let subject = trim(form.message.as_str());
    if subject.as_str().is_empty() {
        return refuse(400, SUBJECT_EMPTY);
    }
    if app.run.status.is_running() {
        return refuse(409, RUN_IN_PROGRESS);
    }
    if form.files.len() == 0 {
        return refuse(400, NO_FILES);
    }
    let with_prompts: bool = !form.include_prompts.as_str().is_empty();
    CommitStep::Listing { subject, files: form.files, with_prompts }
}

/// The first of these paths that is not listed, if there is one.
pub open spec fn first_unlisted(
    paths: Seq<Seq<char>>,
    files: Seq<ChangedFileView>,
) -> Option<Seq<char>>
    decreases paths.len(),
{
    if paths.len() == 0 {
        None
    } else if !is_listed(files, paths[0]) {
        Some(paths[0])
    } else {
        first_unlisted(paths.drop_first(), files)
    }
}

fn listed(files: &Vec<ChangedFile>, path: &String) -> (r: bool)
    ensures
        r == is_listed(file_views(files@), path@),
{
    for i in 0..files.len()
        invariant
            forall|j: int| 0 <= j < i ==> (#[trigger] file_views(files@)[j]).path != path@,
    {
        assert(file_views(files@)[i as int] == files@[i as int]@);
        if files[i].path == *path {
            return true;
        }
    }
    false
}

fn find_unlisted<'a>(paths: &'a Vec<String>, files: &Vec<ChangedFile>) -> (r: Option<&'a String>)
    ensures
        match r {
            Some(path) => first_unlisted(text::strings(paths@), file_views(files@)) == Some(path@),
            None => first_unlisted(text::strings(paths@), file_views(files@)) is None,
        },
{
    let ghost views = text::strings(paths@);
    let ghost known = file_views(files@);
    assert(views.skip(0) =~= views);
    for i in 0..paths.len()
        invariant
            views == text::strings(paths@),
            known == file_views(files@),
            first_unlisted(views, known) == first_unlisted(views.skip(i as int), known),
    {
        proof {
            assert(views.skip(i as int)[0] == paths@[i as int]@);
            assert(views.skip(i as int).drop_first() =~= views.skip(i + 1));
        }
        if !listed(files, &paths[i]) {
            return Some(&paths[i]);
        }
    }
    assert(views.skip(paths@.len() as int).len() == 0);
    None
}

/// The step after the listing.
pub open spec fn after_listing(
    prompts: Seq<Seq<char>>,
    subject: Seq<char>,
    paths: Seq<Seq<char>>,
    with_prompts: bool,
    listing: ListingView,
) -> CommitStepView {
    match listing {
        ListingView::Failed { message } => CommitStepView::Finished {
            reply: status_failure(message),
        },
        ListingView::Malformed => CommitStepView::Malformed,
        ListingView::Files { files } => {
            match first_unlisted(paths, files) {
                Some(path) => refused(400, "Invalid or unknown file path: "@ + path),
                None => if with_prompts && prompts.len() > 0 {
                    CommitStepView::Reflowing { subject, files: paths, body: prompt_body(prompts) }
                } else {
                    CommitStepView::Staging { files: paths, message: subject }
                },
            }
        },
    }
}

/// The step after `git add`.
pub open spec fn after_staging(message: Seq<char>, outcome: CommandView) -> CommitStepView {
    match outcome {
        CommandView::NotStarted { error } => refused(500, "git add failed: "@ + error),
        CommandView::Lost { error } => refused(500, "git add failed: "@ + error),
        CommandView::Exited { success, stderr, .. } => if success {
            CommitStepView::Committing { message }
        } else {
            refused(500, "git add failed: "@ + text::trimmed(text::lossy_text(stderr)))
        },
    }
}

/// What `git commit` wrote, to be shown where it failed.
pub open spec fn commit_details(stdout: Seq<u8>, stderr: Seq<u8>) -> Seq<char> {
    text::trimmed(
        text::trimmed(text::lossy_text(stdout)) + "\n"@ + text::trimmed(text::lossy_text(stderr)),
    )
}

/// The step after `git commit`.
pub open spec fn after_commit(outcome: CommandView) -> CommitStepView {
    match outcome {
        CommandView::NotStarted { error } => refused(500, "git commit failed to start: "@ + error),
        CommandView::Lost { error } => refused(500, "git commit failed: "@ + error),
        CommandView::Exited { success, stdout, stderr } => if success {
            CommitStepView::Refreshing
        } else {
            refused(500, "git commit failed: "@ + commit_details(stdout, stderr))
        },
    }
}

/// The step that the outcome of the due command leads to.
pub open spec fn commit_advanced(
    app: AppView,
    step: CommitStepView,
    outcome: CommandView,
) -> CommitStepView {
    match step {
        CommitStepView::Listing { subject, files, with_prompts } => after_listing(
            app.prompts,
            subject,
            files,
            with_prompts,
            listing_of(outcome),
        ),
        CommitStepView::Reflowing { subject, files, body } => CommitStepView::Staging {
            files,
            message: commit_message(subject, reflowed(body, outcome)),
        },
        CommitStepView::Staging { message, .. } => after_staging(message, outcome),
        CommitStepView::Committing { .. } => after_commit(outcome),
        CommitStepView::Refreshing => CommitStepView::Finished { reply: reply::home_view() },
        CommitStepView::Finished { .. } => step,
        CommitStepView::Malformed => step,
    }
}

/// Whether the outcome is that of a command that ended well.
pub open spec fn succeeded(outcome: CommandView) -> bool {
    outcome matches CommandView::Exited { success, .. } && success
}

/// The server after `git log`: the list of recent commits is what it lists, or as it was
/// where it failed.
pub open spec fn app_refreshed(app: AppView, log: CommandView) -> AppView {
    match diff::recent_commits(log, app.config.diff.max_history as nat) {
        Ok(commits) => AppView { commits, ..app },
        Err(_) => app,
    }
}

/// The server after the due command: a commit that succeeds empties the list of prompts,
/// and the list of recent commits is then read anew.
pub open spec fn app_after_commit_step(
    app: AppView,
    step: CommitStepView,
    outcome: CommandView,
) -> AppView {
    if step is Committing && succeeded(outcome) {
        AppView { prompts: Seq::empty(), ..app }
    } else if step is Refreshing {
        app_refreshed(app, outcome)
    } else {
        app
    }
}

/// The arguments for `git` that list the recent commits.
pub fn log_args(app: &AppState) -> (r: Vec<String>)
    ensures
        text::strings(r@) == diff::git_log_args(app.config.diff.max_history as nat),
{
    recent_commits_args(app.config.diff.max_history)
}

/// Takes the list of recent commits from the outcome of `git log`.  Where that failed, the
/// list is as it was, and the reason is returned.
pub fn refresh_commits(app: &mut AppState, log: &CommandOutcome) -> (r: Option<String>)
    ensures
        final(app)@ == app_refreshed(old(app)@, log@),
        match diff::recent_commits(log@, old(app).config.diff.max_history as nat) {
            Ok(_) => r is None,
            Err(message) => text::opt_text(r) == Some(message),
        },
{
    match get_recent_commits(log, app.config.diff.max_history) {
        Ok(commits) => {
            app.commit_history = commits;
            None
        },
        Err(message) => Some(message),
    }
}

/// The arguments for `git` that stage the files.
pub open spec fn git_add_args(files: Seq<Seq<char>>) -> Seq<Seq<char>> {
    seq!["add"@, "--"@] + files
}

/// The arguments for `git` that stage the files.
pub fn add_args(files: &Vec<String>) -> (r: Vec<String>)
    ensures
        text::strings(r@) == git_add_args(text::strings(files@)),
{
    let mut args: Vec<String> = Vec::new();
    args.push("add".to_owned());
    args.push("--".to_owned());
    let mut paths = clone_strings(files);
    args.append(&mut paths);
    assert(text::strings(args@) =~= git_add_args(text::strings(files@)));
    args
}

/// The arguments for `git` that commit with a message from the input.
pub fn commit_args() -> (r: Vec<String>)
    ensures
        text::strings(r@) == seq!["commit"@, "-F"@, "-"@],
{
    let mut args: Vec<String> = Vec::new();
    args.push("commit".to_owned());
    args.push("-F".to_owned());
    args.push("-".to_owned());
    assert(text::strings(args@) =~= seq!["commit"@, "-F"@, "-"@]);
    args
}

fn finish_listing(
    prompts: &Vec<String>,
    subject: String,
    paths: Vec<String>,
    with_prompts: bool,
    listing: Result<Vec<ChangedFile>, ListFailure>,
) -> (r: CommitStep)
    ensures
        r@ == after_listing(
            text::strings(prompts@),
            subject@,
            text::strings(paths@),
            with_prompts,
            listing_view(listing),
        ),
{
    match listing {
        Err(ListFailure::Failed { message }) => CommitStep::Finished {
            reply: say_status_failure(message.as_str()),
        },
        Err(ListFailure::Malformed) => CommitStep::Malformed,
        Ok(files) => {
            if let Some(path) = find_unlisted(&paths, &files) {
                let message = "Invalid or unknown file path: ".to_owned().concat(path.as_str());
                refuse(400, message.as_str())
            } else if with_prompts && prompts.len() > 0 {
                CommitStep::Reflowing { subject, files: paths, body: join(prompts, "\n\n") }
            } else {
                CommitStep::Staging { files: paths, message: subject }
            }
        },
    }
}

fn finish_staging(message: String, outcome: &CommandOutcome) -> (r: CommitStep)
    ensures
        r@ == after_staging(message@, outcome@),
{
    match outcome {
        CommandOutcome::NotStarted { error } => refuse(
            500,
            "git add failed: ".to_owned().concat(error.as_str()).as_str(),
        ),
        CommandOutcome::Lost { error } => refuse(
            500,
            "git add failed: ".to_owned().concat(error.as_str()).as_str(),
        ),
        CommandOutcome::Exited { success, stderr, .. } => {
            if *success {
                CommitStep::Committing { message }
            } else {
                let reason = trim(from_utf8_lossy(stderr.as_slice()).as_str());
                refuse(500, "git add failed: ".to_owned().concat(reason.as_str()).as_str())
            }
        },
    }
}

fn finish_commit(app: &mut AppState, outcome: &CommandOutcome) -> (r: CommitStep)
    ensures
        r@ == after_commit(outcome@),
        final(app)@ == (if succeeded(outcome@) {
            AppView { prompts: Seq::empty(), ..old(app)@ }
        } else {
            old(app)@
        }),
{
    match outcome {
        CommandOutcome::NotStarted { error } => refuse(
            500,
            "git commit failed to start: ".to_owned().concat(error.as_str()).as_str(),
        ),
        CommandOutcome::Lost { error } => refuse(
            500,
            "git commit failed: ".to_owned().concat(error.as_str()).as_str(),
        ),
        CommandOutcome::Exited { success, stdout, stderr } => {
            if *success {
                app.prompts_since_commit.clear();
                assert(text::strings(app.prompts_since_commit@) =~= Seq::empty());
                CommitStep::Refreshing
            } else {
                let out = trim(from_utf8_lossy(stdout.as_slice()).as_str());
                let err = trim(from_utf8_lossy(stderr.as_slice()).as_str());
                let details = trim(out.concat("\n").concat(err.as_str()).as_str());
                refuse(500, "git commit failed: ".to_owned().concat(details.as_str()).as_str())
            }
        },
    }
}

/// Takes a request to commit one step on, from the outcome of the command that was due.
pub fn advance(app: &mut AppState, step: CommitStep, outcome: &CommandOutcome) -> (r: CommitStep)
    ensures
        r@ == commit_advanced(old(app)@, step@, outcome@),
        final(app)@ == app_after_commit_step(old(app)@, step@, outcome@),
{
    match step {
        CommitStep::Listing { subject, files, with_prompts } => finish_listing(
            &app.prompts_since_commit,
            subject,
            files,
            with_prompts,
            list_changed_files(outcome),
        ),
        CommitStep::Reflowing { subject, files, body } => {
            let body = reflow_with_par(body, outcome);
            let message = build_commit_message(subject.as_str(), body.as_str());
            CommitStep::Staging { files, message }
        },
        CommitStep::Staging { message, .. } => finish_staging(message, outcome),
        CommitStep::Committing { .. } => finish_commit(app, outcome),
        CommitStep::Refreshing => {
            let _ = refresh_commits(app, outcome);
            CommitStep::Finished { reply: home_reply() }
        },
        CommitStep::Finished { reply } => CommitStep::Finished { reply },
        CommitStep::Malformed => CommitStep::Malformed,
    }
}

// ── Laws ────────────────────────────────────────────────────────────────────

/// A file as `git status --porcelain` lists it.
pub struct ListedFile {
    pub status: Seq<char>,
    /// What the line says of the path that a renamed or copied file had.
    pub old_field: Seq<char>,
    /// The path that a renamed or copied file had.
    pub old_path: Seq<char>,
    /// What the line says of the path.
    pub field: Seq<char>,
    /// The path.
    pub path: Seq<char>,
}

/// Whether a file is listed as git does it: with two ASCII characters of status, and fields
/// that say its paths.
pub open spec fn properly_listed(f: ListedFile) -> bool {
    &&& f.status.len() == 2
    &&& is_ascii_chars(f.status)
    &&& f.status[0] != '\n' && f.status[1] != '\n'
    &&& porcelain::says(f.field, f.path)
    &&& porcelain::renames(f.status) ==> porcelain::says(f.old_field, f.old_path)
}

/// What a line says of the paths of its file.
pub open spec fn path_fields(f: ListedFile) -> Seq<char> {
    if porcelain::renames(f.status) {
        f.old_field + seq![' ', '-', '>', ' '] + f.field
    } else {
        f.field
    }
}

/// The line of a file.
pub open spec fn status_line(f: ListedFile) -> Seq<char> {
    f.status + seq![' '] + path_fields(f)
}

/// The lines of these files.
pub open spec fn status_lines(files: Seq<ListedFile>) -> Seq<Seq<char>> {
    files.map_values(|f: ListedFile| status_line(f))
}

/// The files that are listed.
pub open spec fn changed_files(files: Seq<ListedFile>) -> Seq<ChangedFileView> {
    files.map_values(|f: ListedFile| ChangedFileView { status: f.status, path: f.path })
}

/// The listing of these files.
pub open spec fn listing_text(files: Seq<ListedFile>) -> Seq<char>
    decreases files.len(),
{
    if files.len() == 0 {
        seq![]
    } else {
        status_line(files[0]) + seq!['\n'] + listing_text(files.drop_first())
    }
}

proof fn lemma_path_fields(f: ListedFile)
    requires
        properly_listed(f),
    ensures
        path_fields(f).len() > 0,
        path_fields(f).last() > ' ',
        forall|i: int| 0 <= i < path_fields(f).len() ==> #[trigger] path_fields(f)[i] >= ' ',
{
    porcelain::lemma_field_is_printable(f.field, f.path);
    if porcelain::renames(f.status) {
        porcelain::lemma_field_is_printable(f.old_field, f.old_path);
        let all = path_fields(f);
        let n = f.old_field.len() as int;
        assert forall|i: int| 0 <= i < all.len() implies #[trigger] all[i] >= ' ' by {
            if i < n {
                assert(all[i] == f.old_field[i]);
            } else if i >= n + 4 {
                assert(all[i] == f.field[i - n - 4]);
            }
        }
        assert(all.last() == f.field.last());
    }
}

proof fn lemma_status_line(f: ListedFile)
    requires
        properly_listed(f),
    ensures
        names_file(status_line(f)),
        splits(status_line(f)),
        file_of_line(status_line(f)) == (ChangedFileView { status: f.status, path: f.path }),
{
    let line = status_line(f);
    lemma_path_fields(f);
    assert(line.take(2) =~= f.status);
    assert(is_ascii_chars(line.take(3))) by {
        assert forall|i: int| 0 <= i < line.take(3).len() implies '\0' <= #[trigger] line.take(3)[i]
            <= '\u{7f}' by {
            if i < 2 {
                assert(line.take(3)[i] == f.status[i]);
            }
        }
    }
    text::lemma_ascii_cut(line, 2);
    text::lemma_ascii_cut(line, 3);
    assert(line.skip(3) =~= path_fields(f));
    text::lemma_byte_len(line);
    if porcelain::renames(f.status) {
        porcelain::law_renamed_file_is_read_back(
            f.status,
            f.old_field,
            f.old_path,
            f.field,
            f.path,
        );
    } else {
        porcelain::law_other_file_is_read_back(f.status, f.field, f.path);
    }
}

proof fn lemma_listing_lines(files: Seq<ListedFile>)
    requires
        forall|i: int| 0 <= i < files.len() ==> properly_listed(#[trigger] files[i]),
    ensures
        text::line_seq(listing_text(files)) == status_lines(files),
    decreases files.len(),
{
    let all = listing_text(files);
    if files.len() == 0 {
        assert(text::line_seq(all) =~= status_lines(files));
    } else {
        let f = files[0];
        let line = status_line(f);
        let rest = files.drop_first();
        assert(properly_listed(files[0]));
        lemma_path_fields(f);
        let n = line.len() as int;
        assert(all[n] == '\n');
        assert forall|i: int| 0 <= i < n implies text::not_newline()(#[trigger] all[i]) by {
            assert(all[i] == line[i]);
            if i >= 3 {
                assert(line[i] == path_fields(f)[i - 3]);
            }
        }
        text::lemma_run_len(all, text::not_newline(), n);
        assert(all.take(n) =~= line);
        assert(line.last() == path_fields(f).last());
        assert(all.skip(n + 1) =~= listing_text(rest));
        assert forall|i: int| 0 <= i < rest.len() implies properly_listed(#[trigger] rest[i]) by {
            assert(rest[i] == files[i + 1]);
        }
        lemma_listing_lines(rest);
        assert(text::line_seq(all) =~= seq![line] + text::line_seq(listing_text(rest)));
        assert(status_lines(files) =~= seq![line] + status_lines(rest));
    }
}

proof fn lemma_files_of_lines(files: Seq<ListedFile>)
    requires
        forall|i: int| 0 <= i < files.len() ==> properly_listed(#[trigger] files[i]),
    ensures
        files_of_lines(status_lines(files)) == changed_files(files),
    decreases files.len(),
{
    let lines = status_lines(files);
    if files.len() > 0 {
        assert(properly_listed(files.last()));
        lemma_status_line(files.last());
        lemma_files_of_lines(files.drop_last());
        assert(lines.drop_last() =~= status_lines(files.drop_last()));
        assert(changed_files(files) =~= changed_files(files.drop_last()).push(
            ChangedFileView { status: files.last().status, path: files.last().path },
        ));
    } else {
        assert(files_of_lines(lines) =~= changed_files(files));
    }
}

/// A listing gives back the files that it was written from: of each its status and its path,
/// quoted or not, and of a renamed or copied one the new path.
pub proof fn law_listing_is_read_back(files: Seq<ListedFile>)
    requires
        forall|i: int| 0 <= i < files.len() ==> properly_listed(#[trigger] files[i]),
    ensures
        well_formed_listing(listing_text(files)),
        files_of_listing(listing_text(files)) == changed_files(files),
{
    lemma_listing_lines(files);
    lemma_files_of_lines(files);
    let lines = text::line_seq(listing_text(files));
    assert forall|i: int| 0 <= i < lines.len() implies splits(#[trigger] lines[i]) by {
        assert(properly_listed(files[i]));
        lemma_status_line(files[i]);
    }
}

proof fn lemma_first_unlisted(paths: Seq<Seq<char>>, files: Seq<ChangedFileView>)
    ensures
        first_unlisted(paths, files) is None <==> forall|i: int|
            0 <= i < paths.len() ==> is_listed(files, #[trigger] paths[i]),
    decreases paths.len(),
{
    if paths.len() > 0 {
        let rest = paths.drop_first();
        lemma_first_unlisted(rest, files);
        if first_unlisted(paths, files) is None {
            assert forall|i: int| 0 <= i < paths.len() implies is_listed(
                files,
                #[trigger] paths[i],
            ) by {
                if i > 0 {
                    assert(paths[i] == rest[i - 1]);
                }
            }
        } else if is_listed(files, paths[0]) {
            let j = choose|j: int| 0 <= j < rest.len() && !is_listed(files, #[trigger] rest[j]);
            assert(!is_listed(files, paths[j + 1]));
        }
    }
}

/// Whether `git status` lists all of these paths.
pub open spec fn all_listed(paths: Seq<Seq<char>>, outcome: CommandView) -> bool {
    listing_of(outcome) matches ListingView::Files { files } && forall|i: int|
        0 <= i < paths.len() ==> is_listed(files, #[trigger] paths[i])
}

/// A commit goes on after the listing if and only if every selected path is listed, and
/// then with these paths and no other.  One that is not listed is refused.
pub proof fn law_only_listed_files_go_on(
    app: AppView,
    subject: Seq<char>,
    paths: Seq<Seq<char>>,
    with_prompts: bool,
    outcome: CommandView,
)
    ensures
        ({
            let step = CommitStepView::Listing { subject, files: paths, with_prompts };
            match commit_advanced(app, step, outcome) {
                CommitStepView::Staging { files, .. } => files == paths && all_listed(
                    paths,
                    outcome,
                ),
                CommitStepView::Reflowing { files, .. } => files == paths && all_listed(
                    paths,
                    outcome,
                ),
                CommitStepView::Finished { reply } => !all_listed(paths, outcome)
                    && reply.status() == (if listing_of(outcome) is Files {
                    400u16
                } else {
                    500u16
                }),
                CommitStepView::Malformed => listing_of(outcome) is Malformed,
                _ => false,
            }
        }),
{
    if let ListingView::Files { files } = listing_of(outcome) {
        lemma_first_unlisted(paths, files);
    }
}

/// What is staged and committed is what the form asked for: the password was right, no
/// run was under way, the paths are those of the form and `git status` listed each of
/// them, and the message begins with the subject.  With prompts to append, their body
/// follows under its heading, as `par` wrote it; without, the subject is the message.
///
/// The states of the server at the three steps may differ.
pub proof fn law_commit_does_what_was_asked(
    at_start: AppView,
    at_listing: AppView,
    at_reflow: AppView,
    form: CommitFormView,
    listing: CommandView,
    par: CommandView,
)
    ensures
        ({
            let begun = commit_begun(at_start, form);
            let listed = commit_advanced(at_listing, begun, listing);
            let ready = if listed is Reflowing {
                commit_advanced(at_reflow, listed, par)
            } else {
                listed
            };
            let subject = text::trimmed(form.message);
            ready matches CommitStepView::Staging { files, message } ==> {
                &&& auth::admits(at_start.config.server.password@, form.password)
                &&& !(at_start.run.status is Running)
                &&& subject.len() > 0
                &&& files == form.files
                &&& files.len() > 0
                &&& all_listed(files, listing)
                &&& text::begins_with(message, subject)
                &&& if form.include_prompts.len() > 0 && at_listing.prompts.len() > 0 {
                    message == commit_message(
                        subject,
                        reflowed(prompt_body(at_listing.prompts), par),
                    )
                } else {
                    message == subject
                }
            }
        }),
{
    let begun = commit_begun(at_start, form);
    let subject = text::trimmed(form.message);
    if begun is Listing {
        law_only_listed_files_go_on(
            at_listing,
            subject,
            form.files,
            form.include_prompts.len() > 0,
            listing,
        );
        let whole = commit_message(subject, reflowed(prompt_body(at_listing.prompts), par));
        assert(whole.take(subject.len() as int) =~= subject);
        assert(subject.take(subject.len() as int) =~= subject);
    }
}

/// The prompts are forgotten at the very step at which a commit succeeds, and the list of
/// recent commits is read anew at the step after it.  No step of a commit changes anything
/// else, and the browser is sent home only by the last of these two.
pub proof fn law_commit_steps_change_two_lists(
    app: AppView,
    step: CommitStepView,
    outcome: CommandView,
)
    ensures
        ({
            let after = app_after_commit_step(app, step, outcome);
            let next = commit_advanced(app, step, outcome);
            &&& after.run == app.run
            &&& after.conv == app.conv
            &&& after.config == app.config
            &&& step is Committing ==> (next is Refreshing <==> succeeded(outcome))
            &&& step is Committing && succeeded(outcome) ==> after.prompts.len() == 0
            &&& !(step is Committing && succeeded(outcome)) ==> after.prompts == app.prompts
            &&& step is Refreshing ==> after == app_refreshed(app, outcome)
            &&& !(step is Refreshing) ==> after.commits == app.commits
            &&& (next == CommitStepView::Finished { reply: reply::home_view() } && !(
            step is Finished)) <==> step is Refreshing
        }),
{
    if let CommitStepView::Listing { subject, files, with_prompts } = step {
        law_only_listed_files_go_on(app, subject, files, with_prompts, outcome);
    }
}

/// After a commit the list of recent commits begins with the one that `git log` lists first,
/// and holds no more commits than are to be kept.
pub proof fn law_new_commit_is_listed_first(
    app: AppView,
    log: CommandView,
    sha: Seq<char>,
    subject: Seq<char>,
    earlier: Seq<char>,
)
    requires
        app.config.diff.max_history > 0,
        log is Exited && log->success,
        text::lossy_text(log->stdout) == sha + seq![' '] + subject + seq!['\n'] + earlier,
        !sha.contains(' ') && !sha.contains('\n'),
        !subject.contains('\n'),
        subject.len() > 0 ==> subject.last() != '\r',
    ensures
        ({
            let after = app_after_commit_step(app, CommitStepView::Refreshing, log);
            &&& 0 < after.commits.len() <= app.config.diff.max_history
            &&& after.commits[0].sha == sha
            &&& after.commits[0].subject == subject
        }),
{
    diff::lemma_first_commit(
        sha,
        subject,
        earlier,
        app.config.diff.max_history as nat,
    );
}

/// Nothing is committed before the files are staged: `git commit` is due only after a
/// successful `git add`, with the same message.
pub proof fn law_staged_before_committed(app: AppView, step: CommitStepView, outcome: CommandView)
    ensures
        commit_advanced(app, step, outcome) matches CommitStepView::Committing { message } ==> (
        step matches CommitStepView::Staging { message: staged, .. } && staged == message
            && succeeded(outcome)),
{
    if let CommitStepView::Listing { subject, files, with_prompts } = step {
        law_only_listed_files_go_on(app, subject, files, with_prompts, outcome);
    }
}

} // verus!
