//! Text: the handful of string operations that the rest of the crate is built on.
//!
//! A string is modelled by its sequence of characters.  Where a rule is stated in
//! bytes, the model is the UTF-8 encoding of that sequence.

use vstd::prelude::*;
use vstd::string::*;
use vstd::utf8::*;

verus! {

// ── Trusted operations of the standard library ──────────────────────────────

/// `String::push` appends the given character to the end of the string.
pub assume_specification[ String::push ](s: &mut String, c: char)
    ensures
        final(s)@ == old(s)@.push(c),
;

/// The text that `String::from_utf8_lossy` makes of a byte sequence.
pub uninterp spec fn lossily_decoded(bytes: Seq<u8>) -> Seq<char>;

/// Calls `String::from_utf8_lossy`, which depends on its bytes alone.  Bytes that
/// are valid UTF-8 are decoded as they stand; what stands for invalid sequences is
/// left to the name.
#[verifier::external_body]
pub(crate) fn from_utf8_lossy(bytes: &[u8]) -> (r: String)
    ensures
        r@ == lossily_decoded(bytes@),
        valid_utf8(bytes@) ==> r@ == decode_utf8(bytes@),
{
    String::from_utf8_lossy(bytes).into_owned()
}

/// The text of a byte sequence: what it encodes, or what stands for that where it is not
/// valid UTF-8.
pub open spec fn lossy_text(bytes: Seq<u8>) -> Seq<char> {
    if valid_utf8(bytes) {
        decode_utf8(bytes)
    } else {
        lossily_decoded(bytes)
    }
}

/// Whether `char::is_alphanumeric` accepts a character.
pub uninterp spec fn is_alphanumeric(c: char) -> bool;

/// Calls `char::is_alphanumeric`, which depends on the character alone: it follows
/// Unicode's alphabetic and numeric properties.  Within ASCII these are the letters
/// and the digits; which other characters count is left to the name.
#[verifier::external_body]
pub(crate) fn char_is_alphanumeric(c: char) -> (r: bool)
    ensures
        r == is_alphanumeric(c),
        (c as u32) < 128 ==> r == ('a' <= c <= 'z' || 'A' <= c <= 'Z' || '0' <= c <= '9'),
{
    c.is_alphanumeric()
}

// ── Characters and strings ──────────────────────────────────────────────────

/// The characters of a string, in order.
pub fn chars_of(s: &str) -> (r: Vec<char>)
    ensures
        r@ == s@,
{
    let mut out: Vec<char> = Vec::new();
    for c in it: s.chars()
        invariant
            it.seq() == s@,
            out@ == s@.take(it.index()),
    {
        out.push(c);
        assert(s@.take(it.index() + 1) =~= s@.take(it.index()).push(c));
    }
    assert(s@.take(s@.len() as int) =~= s@);
    out
}

/// The string made of `v[from..to]`.
pub fn string_of(v: &Vec<char>, from: usize, to: usize) -> (r: String)
    requires
        from <= to <= v@.len(),
    ensures
        r@ == v@.subrange(from as int, to as int),
{
    let mut out: String = String::new();
    let mut i: usize = from;
    while i < to
        invariant
            from <= i <= to <= v@.len(),
            out@ == v@.subrange(from as int, i as int),
        decreases to - i,
    {
        out.push(v[i]);
        i = i + 1;
        assert(v@.subrange(from as int, i as int) =~= v@.subrange(from as int, i - 1).push(
            v@[i - 1],
        ));
    }
    out
}

/// Whether two strings hold the same characters.
pub fn text_eq(a: &str, b: &str) -> (r: bool)
    ensures
        r == (a@ == b@),
{
    a.to_owned() == b.to_owned()
}

/// The views of a sequence of strings.
pub open spec fn strings(v: Seq<String>) -> Seq<Seq<char>> {
    v.map_values(|s: String| s@)
}

/// The view of an optional string.
pub open spec fn opt_text(o: Option<String>) -> Option<Seq<char>> {
    match o {
        Some(s) => Some(s@),
        None => None,
    }
}

/// A copy of a list of strings.
pub fn clone_strings(v: &Vec<String>) -> (r: Vec<String>)
    ensures
        r@ == v@,
{
    let mut out: Vec<String> = Vec::new();
    for i in 0..v.len()
        invariant
            out@ == v@.take(i as int),
    {
        out.push(v[i].clone());
        assert(v@.take(i + 1) =~= v@.take(i as int).push(v@[i as int]));
    }
    assert(v@.take(v@.len() as int) =~= v@);
    out
}

// ── Runs of characters ──────────────────────────────────────────────────────

/// The length of the longest prefix of `s` whose characters all satisfy `p`.
pub open spec fn run_len(s: Seq<char>, p: spec_fn(char) -> bool) -> int
    decreases s.len(),
{
    if s.len() == 0 || !p(s[0]) {
        0
    } else {
        1 + run_len(s.drop_first(), p)
    }
}

/// `run_len` is the only position that every earlier character satisfies `p` before
/// and that is the end of `s` or holds a character that does not satisfy `p`.
pub proof fn lemma_run_len(s: Seq<char>, p: spec_fn(char) -> bool, k: int)
    requires
        0 <= k <= s.len(),
        forall|i: int| 0 <= i < k ==> p(#[trigger] s[i]),
        k < s.len() ==> !p(s[k]),
    ensures
        run_len(s, p) == k,
    decreases s.len(),
{
    if k > 0 {
        assert(p(s[0]));
        let t = s.drop_first();
        assert forall|i: int| 0 <= i < k - 1 implies p(#[trigger] t[i]) by {
            assert(t[i] == s[i + 1]);
        }
        lemma_run_len(t, p, k - 1);
    }
}

/// What `run_len` says of the characters around it.
pub proof fn lemma_run_len_facts(s: Seq<char>, p: spec_fn(char) -> bool)
    ensures
        0 <= run_len(s, p) <= s.len(),
        forall|i: int| 0 <= i < run_len(s, p) ==> p(#[trigger] s[i]),
        run_len(s, p) < s.len() ==> !p(s[run_len(s, p)]),
    decreases s.len(),
{
    if s.len() > 0 && p(s[0]) {
        let t = s.drop_first();
        lemma_run_len_facts(t, p);
        assert forall|i: int| 0 <= i < run_len(s, p) implies p(#[trigger] s[i]) by {
            if i > 0 {
                assert(s[i] == t[i - 1]);
            }
        }
    }
}

// ── White space ─────────────────────────────────────────────────────────────

/// Unicode's `White_Space` property.
pub open spec fn is_space(c: char) -> bool {
    let n = c as u32;
    ||| 0x09 <= n <= 0x0d
    ||| n == 0x20
    ||| n == 0x85
    ||| n == 0xa0
    ||| n == 0x1680
    ||| 0x2000 <= n <= 0x200a
    ||| n == 0x2028
    ||| n == 0x2029
    ||| n == 0x202f
    ||| n == 0x205f
    ||| n == 0x3000
}

/// The predicate `is_space`.
pub open spec fn space() -> spec_fn(char) -> bool {
    |c: char| is_space(c)
}

/// The predicate of the characters that are no white space.
pub open spec fn nonspace() -> spec_fn(char) -> bool {
    |c: char| !is_space(c)
}

/// Whether a character has Unicode's `White_Space` property.
pub fn char_is_space(c: char) -> (r: bool)
    ensures
        r == is_space(c),
{
    let n: u32 = c as u32;
    (0x09 <= n && n <= 0x0d) || n == 0x20 || n == 0x85 || n == 0xa0 || n == 0x1680 || (0x2000 <= n
        && n <= 0x200a) || n == 0x2028 || n == 0x2029 || n == 0x202f || n == 0x205f || n == 0x3000
}

/// `s` without its leading white space.
pub open spec fn trimmed_start(s: Seq<char>) -> Seq<char> {
    s.skip(run_len(s, space()))
}

/// `s` without its trailing white space.
pub open spec fn trimmed_end(s: Seq<char>) -> Seq<char>
    decreases s.len(),
{
    if s.len() > 0 && is_space(s.last()) {
        trimmed_end(s.drop_last())
    } else {
        s
    }
}

/// `s` without leading and trailing white space.
pub open spec fn trimmed(s: Seq<char>) -> Seq<char> {
    trimmed_end(trimmed_start(s))
}

/// The number of leading characters of `v` that are white space.
fn skip_spaces(v: &Vec<char>) -> (k: usize)
    ensures
        k <= v@.len(),
        k == run_len(v@, space()),
{
    let mut k: usize = 0;
    while k < v.len() && char_is_space(v[k])
        invariant
            k <= v@.len(),
            forall|i: int| 0 <= i < k ==> is_space(#[trigger] v@[i]),
        decreases v@.len() - k,
    {
        k = k + 1;
    }
    proof {
        lemma_run_len(v@, space(), k as int);
    }
    k
}

/// Removes leading and trailing white space.
pub fn trim(s: &str) -> (r: String)
    ensures
        r@ == trimmed(s@),
{
    let v = chars_of(s);
    let from: usize = skip_spaces(&v);
    let mut to: usize = v.len();
    let ghost t = trimmed_start(s@);
    assert(v@.subrange(from as int, to as int) =~= t);
    while from < to && char_is_space(v[to - 1])
        invariant
            from <= to <= v@.len(),
            trimmed_end(t) == trimmed_end(v@.subrange(from as int, to as int)),
        decreases to,
    {
        proof {
            let u = v@.subrange(from as int, to as int);
            assert(u.last() == v@[to - 1]);
            assert(u.drop_last() =~= v@.subrange(from as int, to - 1));
        }
        to = to - 1;
    }
    proof {
        let u = v@.subrange(from as int, to as int);
        if from < to {
            assert(u.last() == v@[to - 1]);
        }
    }
    string_of(&v, from, to)
}

/// The first word of `s`: what stands between its leading white space and the next.
pub open spec fn first_word(s: Seq<char>) -> Option<Seq<char>> {
    let t = trimmed_start(s);
    if t.len() == 0 {
        None
    } else {
        Some(t.take(run_len(t, nonspace())))
    }
}

/// Finds the first word of a text.
pub fn first_token(s: &str) -> (r: Option<String>)
    ensures
        opt_text(r) == first_word(s@),
{
    let v = chars_of(s);
    let from: usize = skip_spaces(&v);
    let ghost t = trimmed_start(s@);
    if from == v.len() {
        return None;
    }
    let mut to: usize = from;
    while to < v.len() && !char_is_space(v[to])
        invariant
            from <= to <= v@.len(),
            t == v@.skip(from as int),
            forall|i: int| 0 <= i < to - from ==> !is_space(#[trigger] t[i]),
        decreases v@.len() - to,
    {
        to = to + 1;
    }
    proof {
        lemma_run_len(t, nonspace(), to - from);
        assert(v@.subrange(from as int, to as int) =~= t.take(to - from));
    }
    Some(string_of(&v, from, to))
}

// ── Lines ───────────────────────────────────────────────────────────────────

/// The predicate of the characters that end no line.
pub open spec fn not_newline() -> spec_fn(char) -> bool {
    |c: char| c != '\n'
}

/// A line without the carriage return that stood before its line feed.
pub open spec fn without_cr(s: Seq<char>) -> Seq<char> {
    if s.len() > 0 && s.last() == '\r' {
        s.drop_last()
    } else {
        s
    }
}

/// The lines of a text: each ends at a line feed, or at a carriage return before one,
/// and the last may end at the end of the text.
pub open spec fn line_seq(s: Seq<char>) -> Seq<Seq<char>>
    decreases s.len(),
{
    let n = run_len(s, not_newline());
    if s.len() == 0 {
        seq![]
    } else if n < 0 || n >= s.len() {
        seq![s]
    } else {
        seq![without_cr(s.take(n))] + line_seq(s.skip(n + 1))
    }
}

/// Splits a text into its lines.
pub fn lines(s: &str) -> (r: Vec<String>)
    ensures
        strings(r@) == line_seq(s@),
{
    let v = chars_of(s);
    let mut out: Vec<String> = Vec::new();
    let mut from: usize = 0;
    assert(v@.skip(0) =~= s@);
    assert(strings(out@) + line_seq(v@) =~= line_seq(s@));
    while from < v.len()
        invariant
            from <= v@.len(),
            strings(out@) + line_seq(v@.skip(from as int)) == line_seq(s@),
        decreases v@.len() - from,
    {
        let ghost rest = v@.skip(from as int);
        let ghost before = strings(out@);
        let mut to: usize = from;
        while to < v.len() && v[to] != '\n'
            invariant
                from <= to <= v@.len(),
                rest == v@.skip(from as int),
                forall|i: int| 0 <= i < to - from ==> #[trigger] rest[i] != '\n',
            decreases v@.len() - to,
        {
            to = to + 1;
        }
        proof {
            lemma_run_len(rest, not_newline(), to - from);
        }
        if to == v.len() {
            let line = string_of(&v, from, to);
            assert(line@ =~= rest);
            assert(line_seq(rest) =~= seq![rest]);
            out.push(line);
            assert(strings(out@) =~= before + seq![rest]);
            assert(line_seq(v@.skip(to as int)) =~= Seq::<Seq<char>>::empty());
            assert(strings(out@) + line_seq(v@.skip(to as int)) =~= before + line_seq(rest));
            from = to;
        } else {
            let end: usize = if to > from && v[to - 1] == '\r' {
                to - 1
            } else {
                to
            };
            let line = string_of(&v, from, end);
            proof {
                let whole = rest.take(to - from);
                assert(whole =~= v@.subrange(from as int, to as int));
                assert(without_cr(whole) =~= line@);
                assert(rest.skip(to - from + 1) =~= v@.skip(to + 1));
            }
            out.push(line);
            assert(strings(out@) =~= before + seq![line@]);
            assert(strings(out@) + line_seq(v@.skip(to + 1)) =~= before + line_seq(rest));
            from = to + 1;
        }
    }
    assert(line_seq(v@.skip(from as int)) =~= Seq::<Seq<char>>::empty());
    assert(strings(out@) =~= line_seq(s@));
    out
}

// ── Searching ───────────────────────────────────────────────────────────────

/// Whether `s` begins with `p`.
pub open spec fn begins_with(s: Seq<char>, p: Seq<char>) -> bool {
    p.len() <= s.len() && s.take(p.len() as int) == p
}

/// Whether `p` stands at index `i` of `s`.
pub open spec fn stands_at(s: Seq<char>, p: Seq<char>, i: int) -> bool {
    0 <= i && i + p.len() <= s.len() && s.subrange(i, i + p.len()) == p
}

/// Whether `p` stands somewhere in `s`.
pub open spec fn occurs_in(s: Seq<char>, p: Seq<char>) -> bool {
    exists|i: int| stands_at(s, p, i)
}

fn chars_stand_at(s: &Vec<char>, p: &Vec<char>, i: usize) -> (r: bool)
    requires
        i + p@.len() <= s@.len(),
    ensures
        r == stands_at(s@, p@, i as int),
{
    let len: usize = s.len();
    let mut k: usize = 0;
    while k < p.len()
        invariant
            k <= p@.len(),
            i + p@.len() <= s@.len(),
            s@.len() == len,
            forall|j: int| 0 <= j < k ==> s@[i + j] == #[trigger] p@[j],
        decreases p@.len() - k,
    {
        if s[i + k] != p[k] {
            assert(s@.subrange(i as int, i + p@.len())[k as int] != p@[k as int]);
            return false;
        }
        k = k + 1;
    }
    assert(s@.subrange(i as int, i + p@.len()) =~= p@);
    true
}

/// Whether a text begins with another.
pub fn starts_with(s: &str, p: &str) -> (r: bool)
    ensures
        r == begins_with(s@, p@),
{
    let sv = chars_of(s);
    let pv = chars_of(p);
    if pv.len() > sv.len() {
        return false;
    }
    assert(s@.take(p@.len() as int) =~= s@.subrange(0, p@.len() as int));
    chars_stand_at(&sv, &pv, 0)
}

/// Whether a text occurs in another.
pub fn contains(s: &str, p: &str) -> (r: bool)
    ensures
        r == occurs_in(s@, p@),
{
    let sv = chars_of(s);
    let pv = chars_of(p);
    if pv.len() > sv.len() {
        return false;
    }
    let last: usize = sv.len() - pv.len();
    let mut i: usize = 0;
    while i <= last
        invariant
            i <= last + 1,
            last + pv@.len() == sv@.len(),
            sv@ == s@,
            pv@ == p@,
            forall|j: int| 0 <= j < i ==> !#[trigger] stands_at(s@, p@, j),
        decreases last + 1 - i,
    {
        if chars_stand_at(&sv, &pv, i) {
            assert(stands_at(s@, p@, i as int));
            return true;
        }
        if i == last {
            assert forall|j: int| !stands_at(s@, p@, j) by {}
            return false;
        }
        i = i + 1;
    }
    false
}

// ── Joining ─────────────────────────────────────────────────────────────────

/// `parts` one after the other, with `sep` between each two.
pub open spec fn joined(parts: Seq<Seq<char>>, sep: Seq<char>) -> Seq<char>
    decreases parts.len(),
{
    if parts.len() == 0 {
        seq![]
    } else if parts.len() == 1 {
        parts[0]
    } else {
        joined(parts.drop_last(), sep) + sep + parts.last()
    }
}

/// Joins strings with a separator between each two.
pub fn join(parts: &Vec<String>, sep: &str) -> (r: String)
    ensures
        r@ == joined(strings(parts@), sep@),
{
    let mut out: String = String::new();
    let ghost views = strings(parts@);
    for i in 0..parts.len()
        invariant
            views == strings(parts@),
            out@ == joined(views.take(i as int), sep@),
    {
        proof {
            assert(views.take(i + 1).drop_last() =~= views.take(i as int));
            assert(views.take(i + 1).last() == parts@[i as int]@);
        }
        if i > 0 {
            out.append(sep);
            out.append(parts[i].as_str());
        } else {
            out = parts[i].clone();
            assert(views.take(1)[0] == parts@[0]@);
        }
    }
    assert(views.take(views.len() as int) =~= views);
    out
}

// ── Numbers ─────────────────────────────────────────────────────────────────

/// The decimal digit of a number below ten.
pub open spec fn digit(n: nat) -> char {
    (48 + n) as char
}

/// A number in decimal, without leading zeros.
pub open spec fn digits(n: nat) -> Seq<char>
    decreases n,
{
    if n < 10 {
        seq![digit(n)]
    } else {
        digits(n / 10).push(digit(n % 10))
    }
}

/// Writes a number in decimal.
pub fn decimal(n: u64) -> (r: String)
    ensures
        r@ == digits(n as nat),
    decreases n,
{
    let mut out: String = if n < 10 {
        String::new()
    } else {
        decimal(n / 10)
    };
    let low: u8 = (n % 10) as u8;
    out.push((48 + low) as char);
    assert(n < 10 ==> out@ =~= seq![digit(n as nat)]);
    out
}

// ── Bytes ───────────────────────────────────────────────────────────────────

/// The length of a text in bytes.
pub open spec fn byte_len(s: Seq<char>) -> nat {
    encode_utf8(s).len()
}

/// Whether the text can be cut after its first `k` bytes: no character straddles them.
pub open spec fn cuts_at(s: Seq<char>, k: int) -> bool {
    is_char_boundary(encode_utf8(s), k)
}

/// The characters that the first `k` bytes of `s` encode.
pub open spec fn head_bytes(s: Seq<char>, k: int) -> Seq<char> {
    decode_utf8(encode_utf8(s).subrange(0, k))
}

/// The characters that the bytes of `s` from the `k`-th on encode.
pub open spec fn tail_bytes(s: Seq<char>, k: int) -> Seq<char> {
    decode_utf8(encode_utf8(s).subrange(k, byte_len(s) as int))
}

/// The length of a text in bytes.
pub fn len_in_bytes(s: &str) -> (r: usize)
    ensures
        r == byte_len(s@),
{
    s.as_bytes().len()
}

/// Cuts a text after its first `k` bytes.
pub fn cut<'a>(s: &'a str, k: usize) -> (r: (&'a str, &'a str))
    requires
        cuts_at(s@, k as int),
    ensures
        r.0@ == head_bytes(s@, k as int),
        r.1@ == tail_bytes(s@, k as int),
        r.0@ + r.1@ == s@,
{
    let r = s.split_at(k);
    proof {
        broadcast use {
            encode_utf8_valid_utf8,
            encode_utf8_decode_utf8,
            decode_utf8_encode_utf8,
            decode_utf8_split,
        };

        assert(decode_utf8(encode_utf8(r.0@)) == r.0@);
        assert(decode_utf8(encode_utf8(r.1@)) == r.1@);
        decode_utf8_split(encode_utf8(s@), k as int);
    }
    r
}

/// The greatest number up to `k` after whose bytes the text can be cut.
pub open spec fn last_cut(s: Seq<char>, k: int) -> int
    decreases k,
{
    if k <= 0 {
        0
    } else if cuts_at(s, k) {
        k
    } else {
        last_cut(s, k - 1)
    }
}

/// `last_cut` is a place to cut, and no later one up to `k` is.
pub proof fn lemma_last_cut(s: Seq<char>, k: int)
    requires
        0 <= k,
    ensures
        0 <= last_cut(s, k) <= k,
        cuts_at(s, last_cut(s, k)),
        forall|j: int| last_cut(s, k) < j <= k ==> !#[trigger] cuts_at(s, j),
    decreases k,
{
    encode_utf8_valid_utf8(s);
    if k > 0 && !cuts_at(s, k) {
        lemma_last_cut(s, k - 1);
    }
}

/// Finds the greatest number up to `k` after whose bytes the text can be cut.
pub fn find_last_cut(s: &str, k: usize) -> (r: usize)
    ensures
        r == last_cut(s@, k as int),
        cuts_at(s@, r as int),
{
    let mut n: usize = k;
    while n > 0 && !s.is_char_boundary(n)
        invariant
            n <= k,
            last_cut(s@, n as int) == last_cut(s@, k as int),
        decreases n,
    {
        n = n - 1;
    }
    proof {
        lemma_last_cut(s@, k as int);
    }
    n
}

/// A text that can be cut after its first `k` bytes is made of two parts, of which the
/// first has `k` bytes.
pub proof fn lemma_cut(s: Seq<char>, k: int)
    requires
        cuts_at(s, k),
    ensures
        0 <= k <= byte_len(s),
        head_bytes(s, k) + tail_bytes(s, k) == s,
        byte_len(head_bytes(s, k)) == k,
        begins_with(s, head_bytes(s, k)),
{
    let bytes = encode_utf8(s);
    encode_utf8_valid_utf8(s);
    encode_utf8_decode_utf8(s);
    lemma_boundary_in_range(bytes, k);
    valid_utf8_split(bytes, k);
    decode_utf8_split(bytes, k);
    decode_utf8_encode_utf8(bytes.subrange(0, k));
    let head = head_bytes(s, k);
    assert(s.take(head.len() as int) =~= head);
}

proof fn lemma_boundary_in_range(bytes: Seq<u8>, k: int)
    requires
        valid_utf8(bytes),
        is_char_boundary(bytes, k),
    ensures
        0 <= k <= bytes.len(),
    decreases bytes.len(),
{
    reveal_with_fuel(is_char_boundary, 2);
}

proof fn lemma_encode_concat(a: Seq<char>, b: Seq<char>)
    ensures
        encode_utf8(a + b) == encode_utf8(a) + encode_utf8(b),
    decreases a.len(),
{
    if a.len() == 0 {
        assert(a + b =~= b);
        assert(encode_utf8(a) + encode_utf8(b) =~= encode_utf8(b));
    } else {
        assert((a + b).drop_first() =~= a.drop_first() + b);
        lemma_encode_concat(a.drop_first(), b);
        assert(encode_utf8(a + b) =~= encode_utf8(a) + encode_utf8(b));
    }
}

proof fn lemma_ascii_boundary(s: Seq<char>, k: int)
    requires
        0 <= k <= s.len(),
        is_ascii_chars(s.take(k)),
    ensures
        cuts_at(s, k),
    decreases k,
{
    encode_utf8_valid_utf8(s);
    if k > 0 {
        let rest = s.drop_first();
        assert(s.take(k)[0] == s[0]);
        assert forall|i: int| 0 <= i < rest.take(k - 1).len() implies '\0'
            <= #[trigger] rest.take(k - 1)[i] <= '\u{7f}' by {
            assert(rest.take(k - 1)[i] == s.take(k)[i + 1]);
        }
        lemma_ascii_boundary(rest, k - 1);
        encode_utf8_first_scalar(s);
        let bytes = encode_utf8(s);
        assert(pop_first_scalar(bytes) =~= encode_utf8(rest));
    }
}

/// Where the first `k` characters of a text are ASCII, a cut after `k` bytes is a cut after
/// `k` characters.
pub proof fn lemma_ascii_cut(s: Seq<char>, k: int)
    requires
        0 <= k <= s.len(),
        is_ascii_chars(s.take(k)),
    ensures
        cuts_at(s, k),
        head_bytes(s, k) == s.take(k),
        tail_bytes(s, k) == s.skip(k),
{
    lemma_ascii_boundary(s, k);
    let a = s.take(k);
    let b = s.skip(k);
    assert(a + b =~= s);
    lemma_encode_concat(a, b);
    is_ascii_chars_encode_utf8(a);
    assert(encode_utf8(s).subrange(0, k) =~= encode_utf8(a));
    assert(encode_utf8(s).subrange(k, byte_len(s) as int) =~= encode_utf8(b));
    encode_utf8_decode_utf8(a);
    encode_utf8_decode_utf8(b);
}

/// A text has at least as many bytes as characters.
pub proof fn lemma_byte_len(s: Seq<char>)
    ensures
        byte_len(s) >= s.len(),
    decreases s.len(),
{
    if s.len() > 0 {
        lemma_byte_len(s.drop_first());
        assert(seq![s[0]] + s.drop_first() =~= s);
        assert(encode_utf8(s).len() >= 1 + encode_utf8(s.drop_first()).len());
    }
}

// ── The first word and the first line ───────────────────────────────────────

/// The first word of the first of these lines that has one.
pub open spec fn first_word_of_lines(lines: Seq<Seq<char>>) -> Option<Seq<char>>
    decreases lines.len(),
{
    if lines.len() == 0 {
        None
    } else {
        match first_word(lines[0]) {
            Some(word) => Some(word),
            None => first_word_of_lines(lines.drop_first()),
        }
    }
}

/// The first word of a text is the first word of its first line that is not blank.
pub proof fn law_first_word_is_in_first_line(s: Seq<char>)
    ensures
        first_word_of_lines(line_seq(s)) == first_word(s),
    decreases s.len(),
{
    let n = run_len(s, not_newline());
    lemma_run_len_facts(s, not_newline());
    let k = run_len(s, space());
    lemma_run_len_facts(s, space());
    if s.len() == 0 {
        assert(trimmed_start(s) =~= s);
    } else if n >= s.len() {
        assert(line_seq(s).drop_first() =~= seq![]);
        assert(first_word_of_lines(line_seq(s).drop_first()) is None);
        assert(line_seq(s)[0] == s);
    } else {
        let line = without_cr(s.take(n));
        let rest = s.skip(n + 1);
        assert(line_seq(s)[0] == line);
        assert(line_seq(s).drop_first() =~= line_seq(rest));
        assert(forall|i: int| 0 <= i < line.len() ==> #[trigger] line[i] == s[i]);
        assert(is_space('\r') && is_space('\n'));
        if k < line.len() {
            lemma_run_len(line, space(), k);
            let t = s.skip(k);
            let u = line.skip(k);
            let m = run_len(t, nonspace());
            lemma_run_len_facts(t, nonspace());
            assert(forall|i: int| 0 <= i < u.len() ==> #[trigger] u[i] == t[i]);
            let stop = line.len() - k;
            assert(t[stop] == s[line.len() as int]);
            assert(is_space(t[stop]));
            assert(m <= stop);
            lemma_run_len(u, nonspace(), m);
            assert(u.take(m) =~= t.take(m));
        } else {
            assert forall|i: int| 0 <= i < line.len() implies space()(#[trigger] line[i]) by {
                assert(is_space(s[i]));
            }
            lemma_run_len(line, space(), line.len() as int);
            assert(trimmed_start(line).len() == 0);
            if k <= n {
                assert(is_space(s[k]));
            }
            assert forall|i: int| 0 <= i < k - n - 1 implies space()(#[trigger] rest[i]) by {
                assert(rest[i] == s[n + 1 + i]);
            }
            if k < s.len() {
                assert(rest[k - n - 1] == s[k]);
            }
            lemma_run_len(rest, space(), k - n - 1);
            assert(rest.skip(k - n - 1) =~= s.skip(k));
            law_first_word_is_in_first_line(rest);
        }
    }
}

} // verus!
