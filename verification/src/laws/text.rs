//! Laws of texts.

use vstd::prelude::*;
use vstd::string::*;
use vstd::utf8::*;

use crate::html;
use crate::text;

verus! {

// ── White space ─────────────────────────────────────────────────────────────

/// White space is exactly what Unicode says.
pub proof fn law_white_space(c: char)
    ensures
        text::is_space(c) <==> {
            ||| c == '\t' || c == '\n' || c == '\u{b}' || c == '\u{c}' || c == '\r' || c == ' '
            ||| c == '\u{85}' || c == '\u{a0}' || c == '\u{1680}'
            ||| '\u{2000}' <= c <= '\u{200a}'
            ||| c == '\u{2028}' || c == '\u{2029}' || c == '\u{202f}' || c == '\u{205f}'
            ||| c == '\u{3000}'
        },
{
}

/// Whether all characters from `i` up to `j` are white space.
pub open spec fn blank_between(s: Seq<char>, i: int, j: int) -> bool {
    forall|k: int| i <= k < j ==> text::is_space(#[trigger] s[k])
}

/// Whether `t` is `s` from `i` up to `j`, and all that is left out is white space.
pub open spec fn loses_blanks_only(s: Seq<char>, t: Seq<char>, i: int, j: int) -> bool {
    &&& 0 <= i <= j <= s.len()
    &&& t == s.subrange(i, j)
    &&& blank_between(s, 0, i)
    &&& blank_between(s, j, s.len() as int)
}

/// Whether `t` is `s` without the white space around it.
pub open spec fn is_core(s: Seq<char>, t: Seq<char>) -> bool {
    &&& exists|i: int, j: int| loses_blanks_only(s, t, i, j)
    &&& t.len() > 0 ==> !text::is_space(t[0]) && !text::is_space(t.last())
}

proof fn lemma_trimmed_end(s: Seq<char>) -> (j: int)
    ensures
        0 <= j <= s.len(),
        text::trimmed_end(s) == s.take(j),
        blank_between(s, j, s.len() as int),
        j > 0 ==> !text::is_space(s[j - 1]),
    decreases s.len(),
{
    if s.len() > 0 && text::is_space(s.last()) {
        let j = lemma_trimmed_end(s.drop_last());
        assert(s.drop_last().take(j) =~= s.take(j));
        assert forall|k: int| j <= k < s.len() implies text::is_space(#[trigger] s[k]) by {
            if k < s.len() - 1 {
                assert(s.drop_last()[k] == s[k]);
            }
        }
        if j > 0 {
            assert(s.drop_last()[j - 1] == s[j - 1]);
        }
        j
    } else {
        assert(s.take(s.len() as int) =~= s);
        s.len() as int
    }
}

/// Trimming loses white space at the ends, all of it and nothing else.
pub proof fn law_trimming(s: Seq<char>)
    ensures
        is_core(s, text::trimmed(s)),
{
    let i = text::run_len(s, text::space());
    text::lemma_run_len_facts(s, text::space());
    let u = text::trimmed_start(s);
    let n = lemma_trimmed_end(u);
    let t = text::trimmed(s);
    let j = i + n;
    assert(t =~= s.subrange(i, j));
    assert forall|k: int| 0 <= k < i implies text::is_space(#[trigger] s[k]) by {
        assert(text::space()(s[k]));
    }
    assert forall|k: int| j <= k < s.len() implies text::is_space(#[trigger] s[k]) by {
        assert(u[k - i] == s[k]);
    }
    assert(loses_blanks_only(s, t, i, j));
    if n > 0 {
        assert(t[0] == s[i]);
        assert(!text::space()(s[i]));
        assert(t.last() == u[n - 1]);
    }
}

/// A text has one core.
pub proof fn lemma_core_is_unique(s: Seq<char>, a: Seq<char>, b: Seq<char>)
    requires
        is_core(s, a),
        is_core(s, b),
    ensures
        a == b,
{
    let (i, j) = choose|i: int, j: int| loses_blanks_only(s, a, i, j);
    let (k, l) = choose|k: int, l: int| loses_blanks_only(s, b, k, l);
    if a.len() > 0 {
        assert(a[0] == s[i] && a.last() == s[j - 1]);
        assert(k <= i) by {
            if i < k {
                assert(text::is_space(s[i]));
            }
        }
        assert(j <= l) by {
            if l < j {
                assert(text::is_space(s[j - 1]));
            }
        }
    }
    if b.len() > 0 {
        assert(b[0] == s[k] && b.last() == s[l - 1]);
        assert(i <= k) by {
            if k < i {
                assert(text::is_space(s[k]));
            }
        }
        assert(l <= j) by {
            if j < l {
                assert(text::is_space(s[l - 1]));
            }
        }
    }
    assert(a =~= b);
}

/// Whether `message` says `what`, and then what is left of `said` without the white space
/// around it.
pub open spec fn quotes(message: Seq<char>, what: Seq<char>, said: Seq<char>) -> bool {
    exists|why: Seq<char>| #[trigger] is_core(said, why) && message == what + why
}

/// Whether `word` stands in `s` at `i`, behind nothing but white space, and ends where white
/// space or the end of `s` follows.
pub open spec fn first_word_at(s: Seq<char>, word: Seq<char>, i: int) -> bool {
    &&& 0 <= i
    &&& i + word.len() <= s.len()
    &&& word == s.subrange(i, i + word.len())
    &&& word.len() > 0
    &&& blank_between(s, 0, i)
    &&& forall|k: int| 0 <= k < word.len() ==> !text::is_space(#[trigger] word[k])
    &&& i + word.len() < s.len() ==> text::is_space(s[i + word.len()])
}

/// Whether `word` is the first word of `s`.
pub open spec fn is_first_word(s: Seq<char>, word: Seq<char>) -> bool {
    exists|i: int| first_word_at(s, word, i)
}

/// The first word is whole, and stands behind nothing but white space.  A text without one is
/// all white space.
pub proof fn law_first_word(s: Seq<char>)
    ensures
        text::first_word(s) is Some ==> is_first_word(s, text::first_word(s)->0),
        text::first_word(s) is None ==> blank_between(s, 0, s.len() as int),
{
    let i = text::run_len(s, text::space());
    text::lemma_run_len_facts(s, text::space());
    let t = text::trimmed_start(s);
    let n = text::run_len(t, text::nonspace());
    text::lemma_run_len_facts(t, text::nonspace());
    assert forall|k: int| 0 <= k < i implies text::is_space(#[trigger] s[k]) by {
        assert(text::space()(s[k]));
    }
    if t.len() > 0 {
        let word = t.take(n);
        assert(t[0] == s[i]);
        assert(!text::space()(s[i]));
        assert(text::nonspace()(t[0]));
        assert(word =~= s.subrange(i, i + n));
        assert forall|k: int| 0 <= k < word.len() implies !text::is_space(#[trigger] word[k]) by {
            assert(text::nonspace()(t[k]));
        }
        if n < t.len() {
            assert(!text::nonspace()(t[n]));
            assert(t[n] == s[i + n]);
        }
        assert(n > 0) by {
            if n == 0 {
                assert(!text::nonspace()(t[0]));
            }
        }
        assert(first_word_at(s, word, i));
        assert(is_first_word(s, word));
    } else {
        assert(i == s.len());
        assert(blank_between(s, 0, s.len() as int));
    }
}

/// A text has one first word, and it is the one that is found.
pub proof fn lemma_first_word_is_unique(s: Seq<char>, word: Seq<char>)
    requires
        is_first_word(s, word),
    ensures
        text::first_word(s) == Some(word),
{
    law_first_word(s);
    let i = choose|i: int| first_word_at(s, word, i);
    assert(s[i] == word[0]);
    assert(!text::is_space(s[i]));
    assert(text::first_word(s) is Some) by {
        if text::first_word(s) is None {
            assert(blank_between(s, 0, s.len() as int));
        }
    }
    let found = text::first_word(s)->0;
    let j = choose|j: int| first_word_at(s, found, j);
    assert(s[j] == found[0]);
    assert(i == j);
    if word.len() < found.len() {
        assert(found[word.len() as int] == s[i + word.len()]);
    }
    if found.len() < word.len() {
        assert(word[found.len() as int] == s[i + found.len()]);
    }
    assert(found =~= word);
}

// ── Lines ───────────────────────────────────────────────────────────────────

/// A text is split at its line feeds: what stands before the first is its first line, but for
/// a carriage return, and what stands behind is split in turn.  Text without a line feed
/// is one line, unless it is empty.
pub proof fn law_lines(line: Seq<char>, rest: Seq<char>)
    requires
        forall|i: int| 0 <= i < line.len() ==> #[trigger] line[i] != '\n',
    ensures
        text::line_seq(Seq::empty()) == Seq::<Seq<char>>::empty(),
        line.len() > 0 ==> text::line_seq(line) == seq![line],
        line.len() == 0 || line.last() != '\r' ==> text::line_seq(line + seq!['\n'] + rest)
            == seq![line] + text::line_seq(rest),
        line.len() > 0 && line.last() == '\r' ==> text::line_seq(line + seq!['\n'] + rest)
            == seq![line.drop_last()] + text::line_seq(rest),
{
    assert(text::line_seq(Seq::empty()) =~= Seq::<Seq<char>>::empty());
    assert forall|i: int| 0 <= i < line.len() implies text::not_newline()(#[trigger] line[i]) by {}
    text::lemma_run_len(line, text::not_newline(), line.len() as int);
    let s = line + seq!['\n'] + rest;
    let n = line.len() as int;
    assert forall|i: int| 0 <= i < n implies text::not_newline()(#[trigger] s[i]) by {
        assert(s[i] == line[i]);
    }
    assert(s[n] == '\n');
    text::lemma_run_len(s, text::not_newline(), n);
    assert(s.take(n) =~= line);
    assert(s.skip(n + 1) =~= rest);
}

// ── Joining ─────────────────────────────────────────────────────────────────

/// The length of the first `i` parts, each with a separator of `gap` characters behind it.
pub open spec fn offset(parts: Seq<Seq<char>>, gap: nat, i: int) -> int
    decreases i,
{
    if i <= 0 {
        0
    } else {
        offset(parts, gap, i - 1) + parts[i - 1].len() + gap
    }
}

/// Whether `whole` is made of these parts, each whole and in its place, with `sep` between
/// each two and nothing else.
pub open spec fn made_of(whole: Seq<char>, parts: Seq<Seq<char>>, sep: Seq<char>) -> bool {
    let n = parts.len() as int;
    &&& n == 0 ==> whole.len() == 0
    &&& n > 0 ==> whole.len() == offset(parts, sep.len(), n - 1) + parts[n - 1].len()
    &&& forall|i: int|
        0 <= i < n ==> text::stands_at(
            whole,
            #[trigger] parts[i],
            offset(parts, sep.len(), i),
        )
    &&& forall|i: int|
        0 <= i < n - 1 ==> text::stands_at(
            whole,
            sep,
            offset(parts, sep.len(), i) + (#[trigger] parts[i]).len(),
        )
}

proof fn lemma_offset_agrees(a: Seq<Seq<char>>, b: Seq<Seq<char>>, gap: nat, i: int)
    requires
        i <= a.len(),
        i <= b.len(),
        forall|j: int| 0 <= j < i ==> a[j] == #[trigger] b[j],
    ensures
        offset(a, gap, i) == offset(b, gap, i),
    decreases i,
{
    if i > 0 {
        lemma_offset_agrees(a, b, gap, i - 1);
        assert(a[i - 1] == b[i - 1]);
    }
}

/// What stands in the beginning of a text stands in the text.
pub proof fn lemma_stands_in_front(a: Seq<char>, b: Seq<char>, p: Seq<char>, i: int)
    requires
        text::stands_at(a, p, i),
    ensures
        text::stands_at(a + b, p, i),
{
    assert((a + b).subrange(i, i + p.len()) =~= a.subrange(i, i + p.len()));
}

/// Whether part `i` stands in its place.
pub open spec fn in_place(whole: Seq<char>, parts: Seq<Seq<char>>, gap: nat, i: int) -> bool {
    text::stands_at(whole, parts[i], offset(parts, gap, i))
}

/// Whether the separator stands behind part `i`.
pub open spec fn parted_behind(
    whole: Seq<char>,
    parts: Seq<Seq<char>>,
    sep: Seq<char>,
    i: int,
) -> bool {
    text::stands_at(whole, sep, offset(parts, sep.len(), i) + parts[i].len())
}

proof fn lemma_part_stays(
    head: Seq<char>,
    tail: Seq<char>,
    front: Seq<Seq<char>>,
    parts: Seq<Seq<char>>,
    sep: Seq<char>,
    i: int,
)
    requires
        0 <= i < front.len() <= parts.len(),
        forall|j: int| 0 <= j < front.len() ==> front[j] == #[trigger] parts[j],
    ensures
        in_place(head, front, sep.len(), i) ==> in_place(head + tail, parts, sep.len(), i),
        parted_behind(head, front, sep, i) ==> parted_behind(head + tail, parts, sep, i),
{
    lemma_offset_agrees(front, parts, sep.len(), i);
    assert(front[i] == parts[i]);
    let at = offset(parts, sep.len(), i);
    if in_place(head, front, sep.len(), i) {
        lemma_stands_in_front(head, tail, parts[i], at);
    }
    if parted_behind(head, front, sep, i) {
        lemma_stands_in_front(head, tail, sep, at + parts[i].len());
    }
}

proof fn lemma_joined_len(parts: Seq<Seq<char>>, sep: Seq<char>)
    requires
        parts.len() > 0,
    ensures
        text::joined(parts, sep).len() == offset(parts, sep.len(), parts.len() - 1)
            + parts.last().len(),
    decreases parts.len(),
{
    let n = parts.len() as int;
    if n == 1 {
        assert(offset(parts, sep.len(), 0) == 0);
    } else {
        let front = parts.drop_last();
        lemma_joined_len(front, sep);
        lemma_offset_agrees(front, parts, sep.len(), n - 2);
        assert(front.last() == parts[n - 2]);
    }
}

proof fn lemma_joined_part(parts: Seq<Seq<char>>, sep: Seq<char>, i: int)
    requires
        0 <= i < parts.len(),
    ensures
        in_place(text::joined(parts, sep), parts, sep.len(), i),
        i < parts.len() - 1 ==> parted_behind(text::joined(parts, sep), parts, sep, i),
    decreases parts.len(),
{
    let whole = text::joined(parts, sep);
    let n = parts.len() as int;
    if n == 1 {
        assert(offset(parts, sep.len(), 0) == 0);
        assert(whole.subrange(0, parts[0].len() as int) =~= parts[0]);
    } else {
        let front = parts.drop_last();
        let head = text::joined(front, sep);
        let last = parts.last();
        assert(whole =~= head + (sep + last));
        lemma_joined_len(front, sep);
        lemma_offset_agrees(front, parts, sep.len(), n - 2);
        assert(front.last() == parts[n - 2]);
        if i < n - 1 {
            lemma_joined_part(front, sep, i);
            lemma_part_stays(head, sep + last, front, parts, sep, i);
            if i == n - 2 {
                let k = head.len() as int;
                assert(whole.subrange(k, k + sep.len()) =~= sep);
            }
        } else {
            let at = offset(parts, sep.len(), n - 1);
            assert(at == head.len() + sep.len());
            assert(whole.subrange(at, at + last.len()) =~= last);
        }
    }
}

/// Joining keeps every part whole and in its place, with the separator between each two and
/// nothing else.
pub proof fn law_joining(parts: Seq<Seq<char>>, sep: Seq<char>)
    ensures
        made_of(text::joined(parts, sep), parts, sep),
{
    let whole = text::joined(parts, sep);
    let n = parts.len() as int;
    if n > 0 {
        lemma_joined_len(parts, sep);
    }
    assert forall|i: int| 0 <= i < n implies text::stands_at(
        whole,
        #[trigger] parts[i],
        offset(parts, sep.len(), i),
    ) by {
        lemma_joined_part(parts, sep, i);
    }
    assert forall|i: int| 0 <= i < n - 1 implies text::stands_at(
        whole,
        sep,
        offset(parts, sep.len(), i) + (#[trigger] parts[i]).len(),
    ) by {
        lemma_joined_part(parts, sep, i);
    }
}

// ── Numbers ─────────────────────────────────────────────────────────────────

/// The number that a sequence of digits is in decimal.
pub open spec fn value(digits: Seq<char>) -> int
    decreases digits.len(),
{
    if digits.len() == 0 {
        0
    } else {
        value(digits.drop_last()) * 10 + (digits.last() as int - '0' as int)
    }
}

/// A number is written in digits that give it back, without a leading zero.
pub proof fn law_decimal(n: nat)
    ensures
        value(text::digits(n)) == n,
        text::digits(n).len() > 0,
        forall|i: int|
            0 <= i < text::digits(n).len() ==> '0' <= #[trigger] text::digits(n)[i] <= '9',
        n > 0 ==> text::digits(n)[0] != '0',
        n == 0 ==> text::digits(n) == seq!['0'],
    decreases n,
{
    let d = text::digits(n);
    if n < 10 {
        assert(d.drop_last() =~= seq![]);
        assert(value(d.drop_last()) == 0);
        assert(d[0] == d.last());
    } else {
        law_decimal(n / 10);
        assert(d.drop_last() =~= text::digits(n / 10));
        assert forall|i: int| 0 <= i < d.len() implies '0' <= #[trigger] d[i] <= '9' by {
            if i < d.len() - 1 {
                assert(d[i] == text::digits(n / 10)[i]);
            }
        }
        assert(d[0] == text::digits(n / 10)[0]);
    }
}

// ── Searching ───────────────────────────────────────────────────────────────

/// Whether `s` is made of `a`, `p` and `b`.
pub open spec fn parted(s: Seq<char>, a: Seq<char>, p: Seq<char>, b: Seq<char>) -> bool {
    s == a + p + b
}

/// To begin with a text is to be that text and something more; to hold it is to be something,
/// that text and something more.
pub proof fn law_searching(a: Seq<char>, p: Seq<char>, b: Seq<char>, s: Seq<char>)
    ensures
        text::begins_with(p + b, p),
        text::begins_with(s, p) ==> s == p + s.skip(p.len() as int),
        text::occurs_in(a + p + b, p),
        text::occurs_in(s, p) ==> exists|x: Seq<char>, y: Seq<char>| parted(s, x, p, y),
{
    assert((p + b).take(p.len() as int) =~= p);
    if text::begins_with(s, p) {
        assert(s =~= s.take(p.len() as int) + s.skip(p.len() as int));
    }
    let whole = a + p + b;
    assert(whole.subrange(a.len() as int, a.len() as int + p.len()) =~= p);
    assert(text::stands_at(whole, p, a.len() as int));
    if text::occurs_in(s, p) {
        let i = choose|i: int| text::stands_at(s, p, i);
        let x = s.take(i);
        let y = s.skip(i + p.len());
        assert(s =~= x + p + y);
        assert(parted(s, x, p, y));
    }
}

/// What a text holds, it holds with more behind it.
pub proof fn lemma_holds_front(a: Seq<char>, b: Seq<char>, p: Seq<char>)
    requires
        text::occurs_in(a, p),
    ensures
        text::occurs_in(a + b, p),
{
    let i = choose|i: int| text::stands_at(a, p, i);
    lemma_stands_in_front(a, b, p, i);
}

/// What a text holds, it holds with more before it.
pub proof fn lemma_holds_back(a: Seq<char>, b: Seq<char>, p: Seq<char>)
    requires
        text::occurs_in(b, p),
    ensures
        text::occurs_in(a + b, p),
{
    let i = choose|i: int| text::stands_at(b, p, i);
    assert((a + b).subrange(a.len() + i, a.len() + i + p.len()) =~= b.subrange(i, i + p.len()));
    assert(text::stands_at(a + b, p, a.len() + i));
}

/// A text holds itself, and what a text holds holds.
pub proof fn lemma_holds(s: Seq<char>, p: Seq<char>, q: Seq<char>)
    ensures
        text::occurs_in(s, s),
        text::occurs_in(s, p) && text::occurs_in(p, q) ==> text::occurs_in(s, q),
{
    assert(s.subrange(0, s.len() as int) =~= s);
    assert(text::stands_at(s, s, 0));
    if text::occurs_in(s, p) && text::occurs_in(p, q) {
        let i = choose|i: int| text::stands_at(s, p, i);
        let j = choose|j: int| text::stands_at(p, q, j);
        assert forall|k: int| 0 <= k < q.len() implies #[trigger] q[k] == s[i + j + k] by {
            assert(p.subrange(j, j + q.len())[k] == q[k]);
            assert(s.subrange(i, i + p.len())[j + k] == p[j + k]);
        }
        assert(s.subrange(i + j, i + j + q.len()) =~= q);
        assert(text::stands_at(s, q, i + j));
    }
}

// ── Bytes ───────────────────────────────────────────────────────────────────

/// The bytes of a text are read as that text, and the length of a text is that of its bytes.
pub proof fn law_bytes_are_read_back(s: Seq<char>)
    ensures
        text::lossy_text(encode_utf8(s)) == s,
        text::byte_len(s) == encode_utf8(s).len(),
{
    encode_utf8_valid_utf8(s);
    encode_utf8_decode_utf8(s);
}

/// A text can be cut at 0, and where it is cut the parts make up the text; the cut up to a
/// number of bytes is the last there is.
pub proof fn law_last_cut(s: Seq<char>, k: int)
    requires
        0 <= k,
    ensures
        ({
            let end = text::last_cut(s, k);
            &&& 0 <= end <= k
            &&& is_char_boundary(encode_utf8(s), end)
            &&& forall|j: int| end < j <= k ==> !#[trigger] is_char_boundary(encode_utf8(s), j)
            &&& text::head_bytes(s, end) + text::tail_bytes(s, end) == s
            &&& encode_utf8(text::head_bytes(s, end)).len() == end
        }),
{
    text::lemma_last_cut(s, k);
    text::lemma_cut(s, text::last_cut(s, k));
    assert forall|j: int| text::last_cut(s, k) < j <= k implies !#[trigger] is_char_boundary(
        encode_utf8(s),
        j,
    ) by {
        assert(!text::cuts_at(s, j));
    }
}

// ── HTML ────────────────────────────────────────────────────────────────────

/// What a browser reads: each of the five entities as the character that it stands for, and
/// every other character as itself.
pub open spec fn browser_reads(html: Seq<char>) -> Seq<char>
    decreases html.len(),
{
    if html.len() == 0 {
        seq![]
    } else if text::begins_with(html, seq!['&', 'a', 'm', 'p', ';']) {
        seq!['&'] + browser_reads(html.skip(5))
    } else if text::begins_with(html, seq!['&', 'l', 't', ';']) {
        seq!['<'] + browser_reads(html.skip(4))
    } else if text::begins_with(html, seq!['&', 'g', 't', ';']) {
        seq!['>'] + browser_reads(html.skip(4))
    } else if text::begins_with(html, seq!['&', 'q', 'u', 'o', 't', ';']) {
        seq!['"'] + browser_reads(html.skip(6))
    } else if text::begins_with(html, seq!['&', '#', '3', '9', ';']) {
        seq!['\''] + browser_reads(html.skip(5))
    } else {
        seq![html[0]] + browser_reads(html.skip(1))
    }
}

proof fn lemma_reads_char(c: char, rest: Seq<char>)
    ensures
        browser_reads(html::escaped_char(c) + rest) == seq![c] + browser_reads(rest),
{
    reveal_strlit("&amp;");
    reveal_strlit("&lt;");
    reveal_strlit("&gt;");
    reveal_strlit("&quot;");
    reveal_strlit("&#39;");
    let e = html::escaped_char(c);
    let s = e + rest;
    assert(s.skip(e.len() as int) =~= rest);
    let amp = seq!['&', 'a', 'm', 'p', ';'];
    let lt = seq!['&', 'l', 't', ';'];
    let gt = seq!['&', 'g', 't', ';'];
    let quot = seq!['&', 'q', 'u', 'o', 't', ';'];
    let apos = seq!['&', '#', '3', '9', ';'];
    assert(s.len() >= 5 ==> s.take(5)[1] == s[1]);
    assert(s.len() >= 4 ==> s.take(4)[1] == s[1]);
    assert(s.len() >= 6 ==> s.take(6)[1] == s[1]);
    if c == '&' {
        assert(s.take(5) =~= amp);
    } else if c == '<' {
        assert(s.take(4) =~= lt);
        assert(amp[1] != s[1]);
    } else if c == '>' {
        assert(s.take(4) =~= gt);
        assert(amp[1] != s[1] && lt[1] != s[1]);
    } else if c == '"' {
        assert(s.take(6) =~= quot);
        assert(amp[1] != s[1] && lt[1] != s[1] && gt[1] != s[1]);
    } else if c == '\'' {
        assert(s.take(5) =~= apos);
        assert(amp[1] != s[1] && lt[1] != s[1] && gt[1] != s[1] && quot[1] != s[1]);
    } else {
        assert(s[0] == c);
        assert(s.len() >= 5 ==> s.take(5)[0] == c);
        assert(s.len() >= 4 ==> s.take(4)[0] == c);
        assert(s.len() >= 6 ==> s.take(6)[0] == c);
        assert(amp[0] == '&' && lt[0] == '&' && gt[0] == '&' && quot[0] == '&' && apos[0] == '&');
    }
}

/// A browser reads an escaped text as the text.
pub proof fn law_browser_reads_escaped(s: Seq<char>)
    ensures
        browser_reads(html::escaped(s)) == s,
    decreases s.len(),
{
    if s.len() == 0 {
        assert(browser_reads(html::escaped(s)) =~= s);
    } else {
        let head = seq![s[0]];
        let rest = s.drop_first();
        assert(s =~= head + rest);
        html::law_escaped_concat(head, rest);
        assert(head.drop_last() =~= seq![]);
        assert(html::escaped(head.drop_last()) =~= seq![]);
        assert(html::escaped(head) =~= html::escaped_char(s[0]));
        lemma_reads_char(s[0], html::escaped(rest));
        law_browser_reads_escaped(rest);
    }
}

/// A text that is not longer than allowed is shown as it is.  Of a longer one exactly the
/// allowed number of characters is shown, from its beginning, and an ellipsis.
pub proof fn law_shortening(s: Seq<char>, max: nat)
    ensures
        s.len() <= max ==> html::truncated(s, max) == s,
        s.len() > max ==> {
            &&& html::truncated(s, max).len() == max + 1
            &&& html::truncated(s, max).last() == '…'
            &&& forall|i: int| 0 <= i < max ==> #[trigger] html::truncated(s, max)[i] == s[i]
        },
{
    reveal_strlit("…");
}

} // verus!
