//! Laws of commits: what is asked for, what is staged, and what the message says.

use vstd::prelude::*;
use vstd::string::*;
use vstd::utf8::*;

use crate::handlers::commit;
use crate::handlers::commit::{
    ChangedFileView, CommitFormView, CommitStepView, Field, ListingView,
};
use crate::laws::conversations;
use crate::laws::pages;
use crate::laws::runs;
use crate::laws::text as texts;
use crate::process::CommandView;
use crate::state::AppView;
use crate::text;

verus! {

// ── The fields of the form ──────────────────────────────────────────────────

/// Whether field `i` has this name.
pub open spec fn named(fields: Seq<Field>, name: Seq<char>, i: int) -> bool {
    0 <= i < fields.len() && fields[i].name@ == name
}

/// Whether a field has this name.
pub open spec fn some_named(fields: Seq<Field>, name: Seq<char>) -> bool {
    exists|i: int| named(fields, name, i)
}

/// Whether no two fields have this name.
pub open spec fn one_named_at_most(fields: Seq<Field>, name: Seq<char>) -> bool {
    forall|i: int, j: int| #[trigger]
        named(fields, name, i) && #[trigger] named(fields, name, j) ==> i == j
}

proof fn lemma_occurrences(fields: Seq<Field>, name: Seq<char>)
    ensures
        commit::occurrences(fields, name) >= 1 <==> some_named(fields, name),
        commit::occurrences(fields, name) <= 1 <==> one_named_at_most(fields, name),
    decreases fields.len(),
{
    if fields.len() > 0 {
        let front = fields.drop_last();
        let n = fields.len() - 1;
        lemma_occurrences(front, name);
        assert forall|i: int| 0 <= i < n implies named(front, name, i) == #[trigger] named(
            fields,
            name,
            i,
        ) by {
            assert(front[i] == fields[i]);
        }
        assert(named(fields, name, n) <==> fields.last().name@ == name);
        if some_named(front, name) {
            let i = choose|i: int| named(front, name, i);
            assert(named(fields, name, i));
            if named(fields, name, n) {
                assert(i != n);
                assert(!one_named_at_most(fields, name));
            }
        }
        if one_named_at_most(front, name) && !(some_named(front, name) && named(fields, name, n)) {
            assert forall|i: int, j: int| #[trigger]
                named(fields, name, i) && #[trigger] named(fields, name, j) implies i == j by {
                if i < n {
                    assert(named(front, name, i));
                }
                if j < n {
                    assert(named(front, name, j));
                }
            }
        }
        if !one_named_at_most(front, name) {
            let (i, j) = choose|i: int, j: int|
                #[trigger] named(front, name, i) && #[trigger] named(front, name, j) && i != j;
            assert(named(fields, name, i) && named(fields, name, j));
        }
        if some_named(fields, name) && !some_named(front, name) {
            let i = choose|i: int| named(fields, name, i);
            if i < n {
                assert(named(front, name, i));
            }
        }
    }
}

/// A form has a subject, and no field twice but those that select files.
pub proof fn law_what_a_form_is(fields: Seq<Field>)
    ensures
        commit::is_form(fields) <==> {
            &&& some_named(fields, "message"@)
            &&& one_named_at_most(fields, "message"@)
            &&& one_named_at_most(fields, "password"@)
            &&& one_named_at_most(fields, "include_prompts"@)
        },
{
    lemma_occurrences(fields, "message"@);
    lemma_occurrences(fields, "password"@);
    lemma_occurrences(fields, "include_prompts"@);
}

/// The value of a field is the one that was sent under its name.
pub proof fn law_value_of_a_field(fields: Seq<Field>, name: Seq<char>, i: int)
    requires
        one_named_at_most(fields, name),
    ensures
        named(fields, name, i) ==> commit::value_of(fields, name) == Some(fields[i].value@),
        !some_named(fields, name) ==> commit::value_of(fields, name) is None,
    decreases fields.len(),
{
    if fields.len() > 0 {
        let front = fields.drop_last();
        let n = fields.len() - 1;
        assert(named(fields, name, n) <==> fields.last().name@ == name);
        assert forall|j: int| named(front, name, j) implies #[trigger] named(fields, name, j) by {
            assert(front[j] == fields[j]);
        }
        assert forall|j: int, k: int| #[trigger]
            named(front, name, j) && #[trigger] named(front, name, k) implies j == k by {
            assert(named(fields, name, j) && named(fields, name, k));
        }
        if named(fields, name, i) && i < n {
            assert(front[i] == fields[i]);
            assert(named(front, name, i));
        }
        if !some_named(fields, name) && some_named(front, name) {
            let j = choose|j: int| named(front, name, j);
            assert(named(fields, name, j));
        }
        law_value_of_a_field(front, name, i);
    }
}

/// The selected files are the values of all fields that select one, in their order: those of
/// the first part of a form, and those of the rest; and a single field selects a file if it
/// is called `files[]`, or `files`, and not otherwise.
pub proof fn law_selected_files(a: Seq<Field>, b: Seq<Field>, f: Field)
    ensures
        commit::selected_files(a + b) == commit::selected_files(a) + commit::selected_files(b),
        f.name@ == "files[]"@ || f.name@ == "files"@ ==> commit::selected_files(seq![f]) == seq![
            f.value@,
        ],
        f.name@ != "files[]"@ && f.name@ != "files"@ ==> commit::selected_files(seq![f]).len()
            == 0,
        commit::selected_files(Seq::empty()).len() == 0,
    decreases b.len(),
{
    assert(seq![f].drop_last() =~= Seq::<Field>::empty());
    assert(commit::selected_files(Seq::empty()) =~= seq![]);
    assert(f.name@ == "files[]"@ || f.name@ == "files"@ ==> commit::selected_files(seq![f])
        =~= seq![f.value@]);
    if b.len() == 0 {
        assert(a + b =~= a);
        assert(commit::selected_files(a + b) =~= commit::selected_files(a)
            + commit::selected_files(b));
    } else {
        law_selected_files(a, b.drop_last(), f);
        assert((a + b).drop_last() =~= a + b.drop_last());
        assert((a + b).last() == b.last());
        assert(commit::selected_files(a + b) =~= commit::selected_files(a)
            + commit::selected_files(b));
    }
}

// ── The request ─────────────────────────────────────────────────────────────

/// Whether the commit is over with an answer that has this status and shows this message.
pub open spec fn is_refused(step: CommitStepView, status: u16, message: Seq<char>) -> bool {
    match step {
        CommitStepView::Finished { reply } => pages::tells(reply, status, message),
        _ => false,
    }
}

/// A commit is refused for a wrong password, without a subject, during a run and without a
/// file, in this order.  Otherwise it begins, with the subject but for the white space around
/// it, with all files that were selected, and with the prompts if they were asked for.
pub proof fn law_a_commit_begins(app: AppView, form: CommitFormView)
    ensures
        ({
            let right = conversations::right_password(app.config.server.password@, form.password);
            let said = runs::says_something(form.message);
            let running = app.run.status is Running;
            let step = commit::commit_begun(app, form);
            &&& !right ==> is_refused(step, 403, "Incorrect password."@)
            &&& right && !said ==> is_refused(step, 400, "Commit subject must not be empty."@)
            &&& right && said && running ==> is_refused(
                step,
                409,
                "Cannot commit while an agent run is in progress."@,
            )
            &&& right && said && !running && form.files.len() == 0 ==> is_refused(
                step,
                400,
                "No files selected. Please select at least one file to commit."@,
            )
            &&& right && said && !running && form.files.len() > 0 ==> match step {
                CommitStepView::Listing { subject, files, with_prompts } => {
                    &&& texts::is_core(form.message, subject)
                    &&& subject.len() > 0
                    &&& files == form.files
                    &&& with_prompts <==> form.include_prompts.len() > 0
                },
                _ => false,
            }
        }),
{
    runs::law_nothing_is_left_of_blanks(form.message);
    texts::law_trimming(form.message);
    pages::law_error_page(403, "Incorrect password."@);
    pages::law_error_page(400, "Commit subject must not be empty."@);
    pages::law_error_page(409, "Cannot commit while an agent run is in progress."@);
    pages::law_error_page(
        400,
        "No files selected. Please select at least one file to commit."@,
    );
}

// ── The listing ─────────────────────────────────────────────────────────────

/// Whether one of these files has this path.
pub open spec fn has_path(files: Seq<ChangedFileView>, path: Seq<char>) -> bool {
    exists|i: int| 0 <= i < files.len() && (#[trigger] files[i]).path == path
}

/// Whether `path` is the first of `paths` that no file has.
pub open spec fn first_strange(
    paths: Seq<Seq<char>>,
    files: Seq<ChangedFileView>,
    k: int,
) -> bool {
    &&& 0 <= k < paths.len()
    &&& !has_path(files, paths[k])
    &&& forall|i: int| 0 <= i < k ==> has_path(files, #[trigger] paths[i])
}

proof fn lemma_first_unlisted(paths: Seq<Seq<char>>, files: Seq<ChangedFileView>, k: int)
    ensures
        first_strange(paths, files, k) ==> commit::first_unlisted(paths, files) == Some(paths[k]),
        (forall|i: int| 0 <= i < paths.len() ==> has_path(files, #[trigger] paths[i]))
            ==> commit::first_unlisted(paths, files) is None,
    decreases paths.len(),
{
    if paths.len() > 0 {
        let rest = paths.drop_first();
        assert(has_path(files, paths[0]) == commit::is_listed(files, paths[0]));
        assert forall|i: int| 0 <= i < rest.len() implies #[trigger] rest[i] == paths[i + 1] by {}
        if has_path(files, paths[0]) {
            lemma_first_unlisted(rest, files, k - 1);
            if first_strange(paths, files, k) {
                assert(k > 0);
                assert(rest[k - 1] == paths[k]);
                assert forall|i: int| 0 <= i < k - 1 implies has_path(
                    files,
                    #[trigger] rest[i],
                ) by {
                    assert(rest[i] == paths[i + 1]);
                }
                assert(first_strange(rest, files, k - 1));
            }
            if forall|i: int| 0 <= i < paths.len() ==> has_path(files, #[trigger] paths[i]) {
                assert forall|i: int| 0 <= i < rest.len() implies has_path(
                    files,
                    #[trigger] rest[i],
                ) by {
                    assert(rest[i] == paths[i + 1]);
                }
            }
        } else {
            assert(first_strange(paths, files, k) ==> k == 0);
        }
    }
}

/// What `par` is given is made of all prompts since the last commit, each whole and in its
/// place, with a blank line between each two and nothing else.  So prompt `i` stands behind
/// the prompts before it and two line feeds for each.  The subject and the files go on as they
/// are.
pub proof fn law_body_holds_every_prompt(
    app: AppView,
    subject: Seq<char>,
    paths: Seq<Seq<char>>,
    with_prompts: bool,
    outcome: CommandView,
)
    ensures
        commit::commit_advanced(
            app,
            CommitStepView::Listing { subject, files: paths, with_prompts },
            outcome,
        ) matches CommitStepView::Reflowing { subject: s, files: f, body } ==> {
            &&& s == subject
            &&& f == paths
            &&& with_prompts
            &&& app.prompts.len() > 0
            &&& texts::made_of(body, app.prompts, seq!['\n', '\n'])
            &&& body.len() == texts::offset(app.prompts, 2, app.prompts.len() as int) - 2
        },
{
    reveal_strlit("\n\n");
    assert("\n\n"@ =~= seq!['\n', '\n']);
    texts::law_joining(app.prompts, seq!['\n', '\n']);
}

/// With the listing of the changed files, a commit goes on with all its files, or says which
/// of them is none of these.
pub proof fn law_selected_files_are_looked_for(
    app: AppView,
    subject: Seq<char>,
    paths: Seq<Seq<char>>,
    with_prompts: bool,
    outcome: CommandView,
    files: Seq<ChangedFileView>,
    k: int,
)
    requires
        commit::listing_of(outcome) == (ListingView::Files { files }),
    ensures
        ({
            let next = commit::commit_advanced(
                app,
                CommitStepView::Listing { subject, files: paths, with_prompts },
                outcome,
            );
            let all = forall|i: int| 0 <= i < paths.len() ==> has_path(files, #[trigger] paths[i]);
            &&& first_strange(paths, files, k) ==> is_refused(
                next,
                400,
                "Invalid or unknown file path: "@ + paths[k],
            )
            &&& all && with_prompts && app.prompts.len() > 0 ==> next is Reflowing
            &&& all && !(with_prompts && app.prompts.len() > 0) ==> next == (
            CommitStepView::Staging { files: paths, message: subject })
        }),
{
    lemma_first_unlisted(paths, files, k);
    if first_strange(paths, files, k) {
        pages::law_error_page(400, "Invalid or unknown file path: "@ + paths[k]);
    }
}

/// A listing names the files of its lines, in order: those of its first lines, and those of
/// the rest.  A line of less than four bytes names none, and any other names one.
pub proof fn law_every_line_names_a_file(
    a: Seq<Seq<char>>,
    b: Seq<Seq<char>>,
    line: Seq<char>,
)
    ensures
        commit::files_of_lines(a + b) == commit::files_of_lines(a) + commit::files_of_lines(b),
        commit::files_of_lines(Seq::empty()).len() == 0,
        encode_utf8(line).len() < 4 ==> commit::files_of_lines(seq![line]).len() == 0,
        encode_utf8(line).len() >= 4 ==> commit::files_of_lines(seq![line]).len() == 1,
    decreases b.len(),
{
    assert(seq![line].drop_last() =~= Seq::<Seq<char>>::empty());
    assert(commit::files_of_lines(Seq::empty()) =~= seq![]);
    if b.len() == 0 {
        assert(a + b =~= a);
    } else {
        law_every_line_names_a_file(a, b.drop_last(), line);
        assert((a + b).drop_last() =~= a + b.drop_last());
        assert((a + b).last() == b.last());
    }
    assert(commit::files_of_lines(a + b) =~= commit::files_of_lines(a) + commit::files_of_lines(b));
}

/// A file is listed with the first two bytes of its line for its status, and is looked for
/// behind the third.
pub proof fn law_parts_of_a_line(line: Seq<char>)
    requires
        encode_utf8(line).len() >= 4,
        is_char_boundary(encode_utf8(line), 2),
        is_char_boundary(encode_utf8(line), 3),
    ensures
        commit::splits(line),
        exists|status: Seq<char>, fields: Seq<char>| #[trigger]
            cut_apart(line, status, fields) && commit::file_of_line(line) == (ChangedFileView {
                status,
                path: crate::porcelain::path_of(status, fields),
            }),
{
    text::lemma_cut(line, 2);
    text::lemma_cut(line, 3);
    let status = text::head_bytes(line, 2);
    let fields = text::tail_bytes(line, 3);
    assert(behind(line, status, text::tail_bytes(line, 2), 2));
    assert(behind(line, text::head_bytes(line, 3), fields, 3));
    assert(cut_apart(line, status, fields));
}

/// Whether `line` is made of `head`, which is so many bytes long, and `tail`.
pub open spec fn behind(line: Seq<char>, head: Seq<char>, tail: Seq<char>, bytes: nat) -> bool {
    line == head + tail && encode_utf8(head).len() == bytes
}

/// Whether `status` is the first two bytes of `line`, and `fields` what stands behind the
/// third.
pub open spec fn cut_apart(line: Seq<char>, status: Seq<char>, fields: Seq<char>) -> bool {
    &&& exists|tail: Seq<char>| behind(line, status, tail, 2)
    &&& exists|head: Seq<char>| behind(line, head, fields, 3)
}

/// What `git status` has written is read where every line can be taken apart, and not
/// otherwise.
pub proof fn law_listing_is_read(outcome: CommandView)
    ensures
        outcome matches CommandView::Exited { success, stdout, .. } ==> success ==> {
            let listing = text::line_seq(text::lossy_text(stdout));
            let whole = forall|i: int|
                0 <= i < listing.len() && encode_utf8(#[trigger] listing[i]).len() >= 4
                    ==> is_char_boundary(encode_utf8(listing[i]), 2) && is_char_boundary(
                    encode_utf8(listing[i]),
                    3,
                );
            &&& whole ==> commit::listing_of(outcome) == (ListingView::Files {
                files: commit::files_of_lines(listing),
            })
            &&& !whole ==> commit::listing_of(outcome) is Malformed
        },
{
    if let CommandView::Exited { success, stdout, .. } = outcome {
        let listing = text::line_seq(text::lossy_text(stdout));
        if commit::well_formed_listing(text::lossy_text(stdout)) {
            assert forall|i: int| 0 <= i < listing.len() && encode_utf8(#[trigger] listing[i]).len()
                >= 4 implies is_char_boundary(encode_utf8(listing[i]), 2) && is_char_boundary(
                encode_utf8(listing[i]),
                3,
            ) by {
                assert(commit::splits(listing[i]));
            }
        }
    }
}

/// Where the changed files cannot be listed, the reason is the one that there is.
pub proof fn law_why_there_is_no_listing(outcome: CommandView)
    ensures
        match outcome {
            CommandView::NotStarted { error } => commit::listing_of(outcome) == (
            ListingView::Failed { message: "Failed to spawn git: "@ + error }),
            CommandView::Lost { error } => commit::listing_of(outcome) == (ListingView::Failed {
                message: "Failed to spawn git: "@ + error,
            }),
            CommandView::Exited { success, stderr, .. } => if success {
                !(commit::listing_of(outcome) is Failed)
            } else {
                match commit::listing_of(outcome) {
                    ListingView::Failed { message } => texts::quotes(
                        message,
                        "git status --porcelain failed: "@,
                        text::lossy_text(stderr),
                    ),
                    _ => false,
                }
            },
        },
{
    if let CommandView::Exited { stderr, .. } = outcome {
        texts::law_trimming(text::lossy_text(stderr));
    }
}

/// A failed listing ends the commit, and the answer says why; so does that of the commit page.
pub proof fn law_failed_listing(
    app: AppView,
    subject: Seq<char>,
    paths: Seq<Seq<char>>,
    with_prompts: bool,
    outcome: CommandView,
)
    ensures
        commit::listing_of(outcome) matches ListingView::Failed { message } ==> {
            &&& is_refused(
                commit::commit_advanced(
                    app,
                    CommitStepView::Listing { subject, files: paths, with_prompts },
                    outcome,
                ),
                500,
                "git status failed: "@ + message,
            )
            &&& pages::tells(
                commit::status_failure(message),
                500,
                "git status failed: "@ + message,
            )
        },
{
    if let ListingView::Failed { message } = commit::listing_of(outcome) {
        pages::law_error_page(500, "git status failed: "@ + message);
    }
}

// ── The message ─────────────────────────────────────────────────────────────

/// The message is the subject, a heading, and what `par` has made of the body, or the body
/// where `par` cannot be had, fails or says nothing.
pub proof fn law_message(
    app: AppView,
    subject: Seq<char>,
    paths: Seq<Seq<char>>,
    body: Seq<char>,
    outcome: CommandView,
)
    ensures
        ({
            let next = commit::commit_advanced(
                app,
                CommitStepView::Reflowing { subject, files: paths, body },
                outcome,
            );
            let start = subject + "\n\nPrompts since last commit:\n\n"@;
            match outcome {
                CommandView::Exited { success, stdout, .. } => {
                    &&& success && stdout.len() > 0 ==> next == (CommitStepView::Staging {
                        files: paths,
                        message: start + text::lossy_text(stdout),
                    })
                    &&& !(success && stdout.len() > 0) ==> next == (CommitStepView::Staging {
                        files: paths,
                        message: start + body,
                    })
                },
                _ => next == (CommitStepView::Staging { files: paths, message: start + body }),
            }
        }),
{
}

/// `git add` gets every file, in order, behind a mark that lets none of them be an option.
pub proof fn law_files_to_stage(files: Seq<Seq<char>>)
    ensures
        commit::git_add_args(files).len() == files.len() + 2,
        commit::git_add_args(files)[0] == "add"@,
        commit::git_add_args(files)[1] == "--"@,
        forall|i: int|
            0 <= i < files.len() ==> #[trigger] files[i] == commit::git_add_args(files)[i + 2],
{
}

/// Once the files are staged the commit is made, with the message as it is.  Where they are
/// not, the answer says why.
pub proof fn law_staging(
    app: AppView,
    files: Seq<Seq<char>>,
    message: Seq<char>,
    outcome: CommandView,
)
    ensures
        ({
            let next = commit::commit_advanced(
                app,
                CommitStepView::Staging { files, message },
                outcome,
            );
            match outcome {
                CommandView::NotStarted { error } => is_refused(
                    next,
                    500,
                    "git add failed: "@ + error,
                ),
                CommandView::Lost { error } => is_refused(next, 500, "git add failed: "@ + error),
                CommandView::Exited { success, stderr, .. } => {
                    &&& success ==> next == (CommitStepView::Committing { message })
                    &&& !success ==> exists|why: Seq<char>| #[trigger]
                        texts::is_core(text::lossy_text(stderr), why) && is_refused(
                            next,
                            500,
                            "git add failed: "@ + why,
                        )
                },
            }
        }),
{
    match outcome {
        CommandView::NotStarted { error } => {
            pages::law_error_page(500, "git add failed: "@ + error);
        },
        CommandView::Lost { error } => {
            pages::law_error_page(500, "git add failed: "@ + error);
        },
        CommandView::Exited { success, stderr, .. } => {
            let why = text::trimmed(text::lossy_text(stderr));
            texts::law_trimming(text::lossy_text(stderr));
            pages::law_error_page(500, "git add failed: "@ + why);
            if !success {
                let next = commit::commit_advanced(
                    app,
                    CommitStepView::Staging { files, message },
                    outcome,
                );
                assert(texts::is_core(text::lossy_text(stderr), why) && is_refused(
                    next,
                    500,
                    "git add failed: "@ + why,
                ));
            }
        },
    }
}

/// Whether `details` are what `git commit` has said: its standard output, a line feed and its
/// standard error, each without the white space around it, and so the whole.
pub open spec fn says_both(details: Seq<char>, stdout: Seq<u8>, stderr: Seq<u8>) -> bool {
    exists|a: Seq<char>, b: Seq<char>|
        {
            &&& #[trigger] texts::is_core(text::lossy_text(stdout), a)
            &&& #[trigger] texts::is_core(text::lossy_text(stderr), b)
            &&& texts::is_core(a + seq!['\n'] + b, details)
        }
}

/// Whether the commit has failed, and the answer holds all that `git commit` has said.
pub open spec fn tells_both(next: CommitStepView, stdout: Seq<u8>, stderr: Seq<u8>) -> bool {
    exists|details: Seq<char>| #[trigger]
        says_both(details, stdout, stderr) && is_refused(
            next,
            500,
            "git commit failed: "@ + details,
        )
}

/// Once the commit is made, the prompts have gone into it and are forgotten, and nothing else
/// is.  Where it is not made, all stays, and the answer says why.
pub proof fn law_committing(app: AppView, message: Seq<char>, outcome: CommandView)
    ensures
        ({
            let step = CommitStepView::Committing { message };
            let next = commit::commit_advanced(app, step, outcome);
            let after = commit::app_after_commit_step(app, step, outcome);
            match outcome {
                CommandView::NotStarted { error } => is_refused(
                    next,
                    500,
                    "git commit failed to start: "@ + error,
                ) && after == app,
                CommandView::Lost { error } => is_refused(
                    next,
                    500,
                    "git commit failed: "@ + error,
                ) && after == app,
                CommandView::Exited { success, stdout, stderr } => {
                    &&& success ==> {
                        &&& next is Refreshing
                        &&& after.prompts.len() == 0
                        &&& after.run == app.run
                        &&& after.conv == app.conv
                        &&& after.config == app.config
                        &&& after.commits == app.commits
                    }
                    &&& !success ==> after == app && tells_both(next, stdout, stderr)
                },
            }
        }),
{
    match outcome {
        CommandView::NotStarted { error } => {
            pages::law_error_page(500, "git commit failed to start: "@ + error);
        },
        CommandView::Lost { error } => {
            pages::law_error_page(500, "git commit failed: "@ + error);
        },
        CommandView::Exited { success, stdout, stderr } => {
            let a = text::trimmed(text::lossy_text(stdout));
            let b = text::trimmed(text::lossy_text(stderr));
            reveal_strlit("\n");
            assert("\n"@ =~= seq!['\n']);
            let details = text::trimmed(a + seq!['\n'] + b);
            texts::law_trimming(text::lossy_text(stdout));
            texts::law_trimming(text::lossy_text(stderr));
            texts::law_trimming(a + seq!['\n'] + b);
            pages::law_error_page(500, "git commit failed: "@ + details);
            assert(says_both(details, stdout, stderr));
        },
    }
}

/// After the commit the list of recent commits is read anew, where it can be, and the browser
/// goes to the main page in any case.
pub proof fn law_after_the_commit(app: AppView, outcome: CommandView)
    ensures
        ({
            let step = CommitStepView::Refreshing;
            let next = commit::commit_advanced(app, step, outcome);
            let after = commit::app_after_commit_step(app, step, outcome);
            &&& next matches CommitStepView::Finished { reply } && pages::goes_home(reply)
            &&& after.prompts == app.prompts
            &&& after.run == app.run
            &&& after.conv == app.conv
            &&& after.config == app.config
            &&& crate::diff::recent_commits(outcome, app.config.diff.max_history as nat) matches Ok(
                commits,
            ) ==> after.commits == commits
            &&& crate::diff::recent_commits(outcome, app.config.diff.max_history as nat) is Err
                ==> after.commits == app.commits
            &&& after == commit::app_refreshed(app, outcome)
        }),
{
}

/// Up to the commit itself, nothing that the server knows changes.
pub proof fn law_nothing_changes_before_the_commit(
    app: AppView,
    step: CommitStepView,
    outcome: CommandView,
)
    requires
        !(step is Committing),
        !(step is Refreshing),
    ensures
        commit::app_after_commit_step(app, step, outcome) == app,
{
}

} // verus!
