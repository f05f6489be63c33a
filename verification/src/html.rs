//! Escaping text for HTML, and shortening it for display.

use vstd::prelude::*;
use vstd::string::*;

use crate::text::{chars_of, string_of};

verus! {

/// What stands for one character in HTML.
pub open spec fn escaped_char(c: char) -> Seq<char> {
    if c == '&' {
        "&amp;"@
    } else if c == '<' {
        "&lt;"@
    } else if c == '>' {
        "&gt;"@
    } else if c == '"' {
        "&quot;"@
    } else if c == '\'' {
        "&#39;"@
    } else {
        seq![c]
    }
}

/// What stands for a text in HTML: each character by itself.
pub open spec fn escaped(s: Seq<char>) -> Seq<char>
    decreases s.len(),
{
    if s.len() == 0 {
        seq![]
    } else {
        escaped(s.drop_last()) + escaped_char(s.last())
    }
}

/// Escapes the characters that mean something in HTML.
pub fn html_escape(s: &str) -> (r: String)
    ensures
        r@ == escaped(s@),
{
    let mut out: String = String::new();
    for c in it: s.chars()
        invariant
            it.seq() == s@,
            out@ == escaped(s@.take(it.index())),
    {
        let ghost before = out@;
        proof {
            assert(s@.take(it.index() + 1).drop_last() =~= s@.take(it.index()));
            assert(s@.take(it.index() + 1).last() == c);
        }
        if c == '&' {
            out.append("&amp;");
        } else if c == '<' {
            out.append("&lt;");
        } else if c == '>' {
            out.append("&gt;");
        } else if c == '"' {
            out.append("&quot;");
        } else if c == '\'' {
            out.append("&#39;");
        } else {
            out.push(c);
            assert(out@ =~= before + seq![c]);
        }
    }
    assert(s@.take(s@.len() as int) =~= s@);
    out
}

/// The first `max` characters of a text and an ellipsis, or the text itself where it is
/// no longer.
pub open spec fn truncated(s: Seq<char>, max: nat) -> Seq<char> {
    if s.len() <= max {
        s
    } else {
        s.take(max as int) + "…"@
    }
}

/// Shortens a text to at most `max` characters, followed by "…" if some are left out.
pub fn truncate(s: &str, max: usize) -> (r: String)
    ensures
        r@ == truncated(s@, max as nat),
{
    let v = chars_of(s);
    if v.len() <= max {
        s.to_owned()
    } else {
        assert(v@.subrange(0, max as int) =~= s@.take(max as int));
        string_of(&v, 0, max).concat("…")
    }
}

// ── Laws of escaping ────────────────────────────────────────────────────────

/// Whether a character can begin a tag or end an attribute's value.
pub open spec fn is_markup(c: char) -> bool {
    c == '<' || c == '>' || c == '"' || c == '\''
}

proof fn lemma_entities()
    ensures
        "&amp;"@ == seq!['&', 'a', 'm', 'p', ';'],
        "&lt;"@ == seq!['&', 'l', 't', ';'],
        "&gt;"@ == seq!['&', 'g', 't', ';'],
        "&quot;"@ == seq!['&', 'q', 'u', 'o', 't', ';'],
        "&#39;"@ == seq!['&', '#', '3', '9', ';'],
{
    reveal_strlit("&amp;");
    reveal_strlit("&lt;");
    reveal_strlit("&gt;");
    reveal_strlit("&quot;");
    reveal_strlit("&#39;");
    assert("&amp;"@ =~= seq!['&', 'a', 'm', 'p', ';']);
    assert("&lt;"@ =~= seq!['&', 'l', 't', ';']);
    assert("&gt;"@ =~= seq!['&', 'g', 't', ';']);
    assert("&quot;"@ =~= seq!['&', 'q', 'u', 'o', 't', ';']);
    assert("&#39;"@ =~= seq!['&', '#', '3', '9', ';']);
}

/// Escaped text holds no character that can begin a tag or end an attribute's value.
pub proof fn law_escaped_is_inert(s: Seq<char>)
    ensures
        forall|i: int| 0 <= i < escaped(s).len() ==> !is_markup(#[trigger] escaped(s)[i]),
    decreases s.len(),
{
    if s.len() > 0 {
        law_escaped_is_inert(s.drop_last());
        lemma_entities();
        let a = escaped(s.drop_last());
        let b = escaped_char(s.last());
        assert forall|i: int| 0 <= i < escaped(s).len() implies !is_markup(
            #[trigger] escaped(s)[i],
        ) by {
            if i < a.len() {
                assert(escaped(s)[i] == a[i]);
            } else {
                assert(escaped(s)[i] == b[i - a.len()]);
            }
        }
    }
}

/// The characters of a text that can begin a tag or end an attribute's value.
pub open spec fn skeleton(s: Seq<char>) -> Seq<char>
    decreases s.len(),
{
    if s.len() == 0 {
        seq![]
    } else if is_markup(s.last()) {
        skeleton(s.drop_last()).push(s.last())
    } else {
        skeleton(s.drop_last())
    }
}

/// The skeleton of a text is that of its pieces.
pub broadcast proof fn lemma_skeleton_concat(a: Seq<char>, b: Seq<char>)
    ensures
        #[trigger] skeleton(a + b) == skeleton(a) + skeleton(b),
    decreases b.len(),
{
    if b.len() == 0 {
        assert(a + b =~= a);
        assert(skeleton(a) + skeleton(b) =~= skeleton(a));
    } else {
        lemma_skeleton_concat(a, b.drop_last());
        assert((a + b).drop_last() =~= a + b.drop_last());
        assert((a + b).last() == b.last());
        assert(skeleton(a + b) =~= skeleton(a) + skeleton(b));
    }
}

/// Text without such characters has no skeleton.
pub proof fn lemma_no_skeleton(s: Seq<char>)
    requires
        forall|i: int| 0 <= i < s.len() ==> !is_markup(#[trigger] s[i]),
    ensures
        skeleton(s) == Seq::<char>::empty(),
    decreases s.len(),
{
    if s.len() > 0 {
        assert forall|i: int| 0 <= i < s.drop_last().len() implies !is_markup(
            #[trigger] s.drop_last()[i],
        ) by {
            assert(s.drop_last()[i] == s[i]);
        }
        lemma_no_skeleton(s.drop_last());
    }
}

/// Escaped text has no skeleton.
pub broadcast proof fn lemma_escaped_has_no_skeleton(s: Seq<char>)
    ensures
        #[trigger] skeleton(escaped(s)) == Seq::<char>::empty(),
{
    law_escaped_is_inert(s);
    lemma_no_skeleton(escaped(s));
}

/// Text is escaped piece by piece: what stands before or behind does not matter.
pub proof fn law_escaped_concat(a: Seq<char>, b: Seq<char>)
    ensures
        escaped(a + b) == escaped(a) + escaped(b),
    decreases b.len(),
{
    if b.len() == 0 {
        assert(a + b =~= a);
        assert(escaped(a) + escaped(b) =~= escaped(a));
    } else {
        law_escaped_concat(a, b.drop_last());
        assert((a + b).drop_last() =~= a + b.drop_last());
        assert((a + b).last() == b.last());
        assert(escaped(a + b) =~= escaped(a) + escaped(b));
    }
}

proof fn lemma_escaped_first(s: Seq<char>)
    requires
        s.len() > 0,
    ensures
        escaped(s) == escaped_char(s[0]) + escaped(s.drop_first()),
        escaped_char(s[0]).len() > 0,
{
    let head = seq![s[0]];
    assert(s =~= head + s.drop_first());
    law_escaped_concat(head, s.drop_first());
    assert(head.drop_last() =~= seq![]);
    assert(escaped(head.drop_last()) =~= seq![]);
    assert(escaped(head) =~= escaped_char(s[0]));
    lemma_entities();
}

/// Two texts that are the same when escaped are the same: escaping loses nothing.
pub proof fn law_escape_loses_nothing(a: Seq<char>, b: Seq<char>)
    requires
        escaped(a) == escaped(b),
    ensures
        a == b,
    decreases a.len(),
{
    if a.len() > 0 {
        lemma_escaped_first(a);
    }
    if b.len() > 0 {
        lemma_escaped_first(b);
    }
    if a.len() > 0 && b.len() > 0 {
        let ea = escaped_char(a[0]);
        let eb = escaped_char(b[0]);
        let ra = escaped(a.drop_first());
        let rb = escaped(b.drop_first());
        lemma_entities();
        assert((ea + ra)[0] == ea[0] && (eb + rb)[0] == eb[0]);
        if ea.len() > 1 && eb.len() > 1 {
            assert((ea + ra)[1] == ea[1] && (eb + rb)[1] == eb[1]);
        }
        assert(a[0] == b[0]);
        assert(ra =~= (ea + ra).skip(ea.len() as int));
        assert(rb =~= (eb + rb).skip(eb.len() as int));
        law_escape_loses_nothing(a.drop_first(), b.drop_first());
        assert(a =~= seq![a[0]] + a.drop_first());
        assert(b =~= seq![b[0]] + b.drop_first());
    } else {
        assert(a.len() > 0 ==> escaped(a).len() > 0);
        assert(b.len() > 0 ==> escaped(b).len() > 0);
        assert(a.len() == 0 && b.len() == 0);
        assert(a =~= b);
    }
}

/// Shortened text keeps at most `max` characters of the text, and one more to say so.
pub proof fn law_truncated_length(s: Seq<char>, max: nat)
    ensures
        truncated(s, max).len() <= max + 1,
        s.len() <= max ==> truncated(s, max) == s,
        forall|i: int|
            0 <= i < s.len() && i < max ==> #[trigger] truncated(s, max)[i] == s[i],
{
    reveal_strlit("…");
}

} // verus!
