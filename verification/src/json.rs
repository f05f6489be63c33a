//! The JSON documents that the server writes.

use vstd::prelude::*;
use vstd::string::*;

verus! {

/// A hexadecimal digit, in lower case.
pub open spec fn hex_digit(n: nat) -> char {
    if n < 10 {
        (48 + n) as char
    } else {
        (87 + n) as char
    }
}

/// What stands for one character in a JSON string.
pub open spec fn json_char(c: char) -> Seq<char> {
    let n = c as nat;
    if c == '"' {
        seq!['\\', '"']
    } else if c == '\\' {
        seq!['\\', '\\']
    } else if n == 8 {
        seq!['\\', 'b']
    } else if n == 9 {
        seq!['\\', 't']
    } else if n == 10 {
        seq!['\\', 'n']
    } else if n == 12 {
        seq!['\\', 'f']
    } else if n == 13 {
        seq!['\\', 'r']
    } else if n < 32 {
        seq!['\\', 'u', '0', '0', hex_digit(n / 16), hex_digit(n % 16)]
    } else {
        seq![c]
    }
}

/// What stands for a text inside a JSON string.
pub open spec fn json_chars(s: Seq<char>) -> Seq<char>
    decreases s.len(),
{
    if s.len() == 0 {
        seq![]
    } else {
        json_chars(s.drop_last()) + json_char(s.last())
    }
}

/// A text as a JSON string.
pub open spec fn json_string(s: Seq<char>) -> Seq<char> {
    seq!['"'] + json_chars(s) + seq!['"']
}

/// A JSON object with one member, whose value is a string.
pub open spec fn json_object(key: Seq<char>, value: Seq<char>) -> Seq<char> {
    seq!['{'] + json_string(key) + seq![':'] + json_string(value) + seq!['}']
}

/// Builds a `serde_json::Value` that is an object with one string member, and writes it
/// with the value's `Display`: compact, with `"`, `\` and the characters below U+0020
/// escaped, the latter by a letter where JSON has one.
#[verifier::external_body]
pub(crate) fn write_object(key: &str, value: &str) -> (r: String)
    ensures
        r@ == json_object(key@, value@),
{
    let mut members = serde_json::Map::new();
    members.insert(key.to_string(), serde_json::Value::String(value.to_string()));
    serde_json::Value::Object(members).to_string()
}

proof fn lemma_json_chars_first(s: Seq<char>)
    requires
        s.len() > 0,
    ensures
        json_chars(s) == json_char(s[0]) + json_chars(s.drop_first()),
    decreases s.len(),
{
    let rest = s.drop_first();
    if s.len() == 1 {
        assert(s.drop_last() =~= seq![]);
        assert(rest =~= seq![]);
        assert(json_chars(s.drop_last()) =~= seq![]);
        assert(json_chars(rest) =~= seq![]);
        assert(json_chars(s) =~= json_char(s[0]) + json_chars(rest));
    } else {
        lemma_json_chars_first(s.drop_last());
        assert(s.drop_last().drop_first() =~= rest.drop_last());
        assert(json_chars(s) =~= json_char(s[0]) + json_chars(rest));
    }
}

proof fn lemma_json_char(a: char, b: char)
    requires
        json_char(a) == json_char(b),
    ensures
        a == b,
{
    let x = json_char(a);
    let y = json_char(b);
    assert(x.len() == y.len());
    assert(seq![a][0] == a && seq![b][0] == b);
    if x.len() > 1 {
        assert(x[1] == y[1]);
    }
    if x.len() > 2 {
        assert(x[4] == y[4] && x[5] == y[5]);
        let m = a as nat;
        let n = b as nat;
        assert(m < 32 && n < 32);
        assert(m / 16 == n / 16 && m % 16 == n % 16);
        assert(m == n);
    }
}

/// Two texts that are the same as JSON are the same: nothing is lost.
pub proof fn law_json_loses_nothing(a: Seq<char>, b: Seq<char>)
    requires
        json_chars(a) == json_chars(b),
    ensures
        a == b,
    decreases a.len(),
{
    if a.len() > 0 {
        lemma_json_chars_first(a);
    }
    if b.len() > 0 {
        lemma_json_chars_first(b);
    }
    if a.len() > 0 && b.len() > 0 {
        let ja = json_char(a[0]);
        let jb = json_char(b[0]);
        let ra = json_chars(a.drop_first());
        let rb = json_chars(b.drop_first());
        assert((ja + ra)[0] == ja[0] && (jb + rb)[0] == jb[0]);
        if ja.len() > 1 && jb.len() > 1 {
            assert((ja + ra)[1] == ja[1] && (jb + rb)[1] == jb[1]);
        }
        if ja.len() > 2 && jb.len() > 2 {
            assert((ja + ra)[4] == ja[4] && (jb + rb)[4] == jb[4]);
            assert((ja + ra)[5] == ja[5] && (jb + rb)[5] == jb[5]);
        }
        assert(ja =~= jb);
        lemma_json_char(a[0], b[0]);
        assert(ra =~= (ja + ra).skip(ja.len() as int));
        assert(rb =~= (jb + rb).skip(jb.len() as int));
        law_json_loses_nothing(a.drop_first(), b.drop_first());
        assert(a =~= seq![a[0]] + a.drop_first());
        assert(b =~= seq![b[0]] + b.drop_first());
    } else {
        assert(a =~= b);
    }
}

} // verus!
