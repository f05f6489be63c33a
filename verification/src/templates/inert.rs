//! What others write adds no markup to a page.
//!
//! The skeleton of a page is what its tags and attributes are made of.  It depends on how
//! many things the page shows, and not on what they say.

use vstd::prelude::*;
use vstd::string::*;

use crate::handlers::commit::ChangedFileView;
use crate::html;
use crate::state::{ConvEntryView, ConvView, RunView};
use crate::templates;
use crate::text;

verus! {

broadcast use {html::lemma_skeleton_concat, html::lemma_escaped_has_no_skeleton};

broadcast proof fn lemma_digits_have_no_skeleton(n: nat)
    ensures
        #[trigger] html::skeleton(text::digits(n)) == Seq::<char>::empty(),
    decreases n,
{
    if n < 10 {
        html::lemma_no_skeleton(text::digits(n));
    } else {
        lemma_digits_have_no_skeleton(n / 10);
        let d = seq![text::digit(n % 10)];
        html::lemma_no_skeleton(d);
        assert(text::digits(n) =~= text::digits(n / 10) + d);
    }
}

proof fn lemma_runs_text(n: nat)
    ensures
        html::skeleton(templates::runs_text(n)) == Seq::<char>::empty(),
{
    reveal_strlit(" run");
    reveal_strlit(" runs");
    html::lemma_no_skeleton(" run"@);
    html::lemma_no_skeleton(" runs"@);
    lemma_digits_have_no_skeleton(n);
}

/// The skeleton of an error page does not depend on its message.
pub proof fn law_error_page_is_inert(status: nat, a: Seq<char>, b: Seq<char>)
    ensures
        html::skeleton(templates::error_page(status, a)) == html::skeleton(
            templates::error_page(status, b),
        ),
{
}

/// The skeleton of a notice does not depend on its message.
pub proof fn law_no_diff_page_is_inert(a: Seq<char>, b: Seq<char>)
    ensures
        html::skeleton(templates::no_diff_page(a)) == html::skeleton(templates::no_diff_page(b)),
{
}

/// The skeleton of a line of output does not depend on the line.
pub proof fn law_output_line_is_inert(a: Seq<char>, b: Seq<char>)
    ensures
        html::skeleton(templates::output_line(a)) == html::skeleton(templates::output_line(b)),
{
    reveal_strlit("output-line stderr");
    reveal_strlit("output-line");
    html::lemma_no_skeleton("output-line stderr"@);
    html::lemma_no_skeleton("output-line"@);
}

proof fn lemma_joined(a: Seq<Seq<char>>, b: Seq<Seq<char>>, sep: Seq<char>)
    requires
        a.len() == b.len(),
        forall|i: int| 0 <= i < a.len() ==> html::skeleton(#[trigger] a[i]) == html::skeleton(b[i]),
    ensures
        html::skeleton(text::joined(a, sep)) == html::skeleton(text::joined(b, sep)),
    decreases a.len(),
{
    if a.len() > 0 {
        let x = a.drop_last();
        let y = b.drop_last();
        assert forall|i: int| 0 <= i < x.len() implies html::skeleton(#[trigger] x[i])
            == html::skeleton(y[i]) by {
            assert(x[i] == a[i] && y[i] == b[i]);
        }
        lemma_joined(x, y, sep);
        assert(html::skeleton(a[a.len() - 1]) == html::skeleton(b[b.len() - 1]));
    }
}

/// Whether two runs are in the same phase and have written equally many lines.
pub open spec fn alike(a: RunView, b: RunView) -> bool {
    &&& a.output.len() == b.output.len()
    &&& a.status is Idle == b.status is Idle
    &&& a.status is Running == b.status is Running
    &&& a.status is Done == b.status is Done
}

/// The skeleton of the output depends on the phase and on the number of lines alone.
pub proof fn law_output_is_inert(a: RunView, b: RunView)
    requires
        alike(a, b),
    ensures
        html::skeleton(templates::output_section(a)) == html::skeleton(
            templates::output_section(b),
        ),
{
    let x = a.output.map_values(|l: Seq<char>| templates::output_line(l));
    let y = b.output.map_values(|l: Seq<char>| templates::output_line(l));
    assert forall|i: int| 0 <= i < x.len() implies html::skeleton(#[trigger] x[i])
        == html::skeleton(y[i]) by {
        law_output_line_is_inert(a.output[i], b.output[i]);
    }
    lemma_joined(x, y, "\n"@);
}

proof fn lemma_conv_row(
    a: ConvEntryView,
    b: ConvEntryView,
    active_a: Option<Seq<char>>,
    active_b: Option<Seq<char>>,
)
    ensures
        html::skeleton(templates::conv_row(a, active_a)) == html::skeleton(
            templates::conv_row(b, active_b),
        ),
{
    broadcast use lemma_digits_have_no_skeleton;

    lemma_runs_text(a.run_count as nat);
    lemma_runs_text(b.run_count as nat);
    reveal_strlit("(no label)");
    html::lemma_no_skeleton("(no label)"@);
    reveal_strlit(" ◀ active");
    html::lemma_no_skeleton(" ◀ active"@);
    reveal_strlit("");
    html::lemma_no_skeleton(""@);
}

proof fn lemma_conv_rows(
    a: Seq<ConvEntryView>,
    b: Seq<ConvEntryView>,
    active_a: Option<Seq<char>>,
    active_b: Option<Seq<char>>,
)
    requires
        a.len() == b.len(),
    ensures
        html::skeleton(templates::conv_rows(a, active_a)) == html::skeleton(
            templates::conv_rows(b, active_b),
        ),
    decreases a.len(),
{
    if a.len() > 0 {
        lemma_conv_row(a.last(), b.last(), active_a, active_b);
        lemma_conv_rows(a.drop_last(), b.drop_last(), active_a, active_b);
    }
}

/// The skeleton of the list of conversations depends on their number alone.
pub proof fn law_conv_list_is_inert(a: ConvView, b: ConvView)
    requires
        a.history.len() == b.history.len(),
    ensures
        html::skeleton(templates::conv_list(a)) == html::skeleton(templates::conv_list(b)),
{
    lemma_conv_rows(a.history, b.history, a.active_id, b.active_id);
}

/// The skeleton of the conversation bar depends alone on whether a conversation is active,
/// and on whether that has a label.
pub proof fn law_conv_bar_is_inert(a: ConvView, b: ConvView)
    requires
        templates::active_of(a) is Some == templates::active_of(b) is Some,
        templates::active_of(a) is Some ==> (templates::active_of(a)->0.label.len() == 0) == (
        templates::active_of(b)->0.label.len() == 0),
    ensures
        html::skeleton(templates::conv_bar(a)) == html::skeleton(templates::conv_bar(b)),
{
    if templates::active_of(a) is Some {
        lemma_runs_text(templates::active_of(a)->0.run_count as nat);
        lemma_runs_text(templates::active_of(b)->0.run_count as nat);
    }
}

proof fn lemma_file_rows(a: Seq<ChangedFileView>, b: Seq<ChangedFileView>)
    requires
        a.len() == b.len(),
    ensures
        html::skeleton(templates::file_rows(a)) == html::skeleton(templates::file_rows(b)),
    decreases a.len(),
{
    if a.len() > 0 {
        lemma_file_rows(a.drop_last(), b.drop_last());
    }
}

proof fn lemma_prompt_rows(a: Seq<Seq<char>>, b: Seq<Seq<char>>)
    requires
        a.len() == b.len(),
    ensures
        html::skeleton(templates::prompt_rows(a)) == html::skeleton(templates::prompt_rows(b)),
    decreases a.len(),
{
    if a.len() > 0 {
        lemma_prompt_rows(a.drop_last(), b.drop_last());
    }
}

/// The skeleton of the commit page depends on the number of files and of prompts, and on
/// whether a password is asked for.
pub proof fn law_commit_page_is_inert(
    files_a: Seq<ChangedFileView>,
    files_b: Seq<ChangedFileView>,
    prompts_a: Seq<Seq<char>>,
    prompts_b: Seq<Seq<char>>,
    password_enabled: bool,
)
    requires
        files_a.len() == files_b.len(),
        prompts_a.len() == prompts_b.len(),
    ensures
        html::skeleton(templates::commit_page(files_a, prompts_a, password_enabled))
            == html::skeleton(templates::commit_page(files_b, prompts_b, password_enabled)),
{
    lemma_file_rows(files_a, files_b);
    lemma_prompt_rows(prompts_a, prompts_b);
    assert(html::skeleton(templates::prompts_preview(prompts_a)) == html::skeleton(
        templates::prompts_preview(prompts_b),
    ));
    assert(html::skeleton(templates::commit_form(files_a, prompts_a)) == html::skeleton(
        templates::commit_form(files_b, prompts_b),
    ));
}

proof fn lemma_prompts_hint(n: nat)
    ensures
        html::skeleton(templates::prompts_hint(n)) == Seq::<char>::empty(),
{
    broadcast use lemma_digits_have_no_skeleton;

    reveal_strlit("No prompts accumulated yet.");
    html::lemma_no_skeleton("No prompts accumulated yet."@);
    reveal_strlit(" prompt");
    html::lemma_no_skeleton(" prompt"@);
    reveal_strlit(" prompts");
    html::lemma_no_skeleton(" prompts"@);
    reveal_strlit(" will be appended to the commit body.");
    html::lemma_no_skeleton(" will be appended to the commit body."@);
}

/// The skeleton of the main page depends on the phase of the run, the number of lines that
/// it has written, whether a conversation is active and has a label, and whether a
/// password is asked for.
pub proof fn law_index_page_is_inert(
    run_a: RunView,
    run_b: RunView,
    conv_a: ConvView,
    conv_b: ConvView,
    dir_a: Seq<char>,
    dir_b: Seq<char>,
    password_enabled: bool,
    count_a: nat,
    count_b: nat,
)
    requires
        alike(run_a, run_b),
        templates::active_of(conv_a) is Some == templates::active_of(conv_b) is Some,
        templates::active_of(conv_a) is Some ==> (templates::active_of(conv_a)->0.label.len()
            == 0) == (templates::active_of(conv_b)->0.label.len() == 0),
    ensures
        html::skeleton(
            templates::index_page(run_a, conv_a, dir_a, password_enabled, count_a),
        ) == html::skeleton(
            templates::index_page(run_b, conv_b, dir_b, password_enabled, count_b),
        ),
{
    law_output_is_inert(run_a, run_b);
    law_conv_bar_is_inert(conv_a, conv_b);
    lemma_prompts_hint(count_a);
    lemma_prompts_hint(count_b);
    assert(templates::status_badge(run_a.status) == templates::status_badge(run_b.status));
}

} // verus!
