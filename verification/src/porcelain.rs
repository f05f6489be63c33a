//! The paths in the listing of `git status --porcelain`.
//!
//! A path that holds blanks or other unusual characters is quoted like a string of C, byte
//! by byte.  A file that was renamed or copied is listed with its old path, an arrow and
//! its new path.

use vstd::prelude::*;
use vstd::string::*;
use vstd::utf8::*;

use crate::text;
use crate::text::{chars_of, from_utf8_lossy, string_of};

verus! {

// ── Quoting ─────────────────────────────────────────────────────────────────

/// The byte that a backslash and this byte stand for, if they do.
pub open spec fn letter_escape(b: u8) -> Option<u8> {
    if b == 97 {
        Some(7u8)
    } else if b == 98 {
        Some(8u8)
    } else if b == 116 {
        Some(9u8)
    } else if b == 110 {
        Some(10u8)
    } else if b == 118 {
        Some(11u8)
    } else if b == 102 {
        Some(12u8)
    } else if b == 114 {
        Some(13u8)
    } else if b == 34 || b == 92 {
        Some(b)
    } else {
        None
    }
}

/// Whether three octal digits for a byte stand at the beginning, behind a backslash.
pub open spec fn octal_escape(s: Seq<u8>) -> bool {
    s.len() >= 4 && 48 <= s[1] <= 51 && 48 <= s[2] <= 55 && 48 <= s[3] <= 55
}

/// The bytes that stand between the quotes, with each escape resolved.  A backslash that
/// begins no escape stands for itself.
pub open spec fn unescaped(s: Seq<u8>) -> Seq<u8>
    decreases s.len(),
{
    if s.len() == 0 {
        seq![]
    } else if s[0] == 92 && s.len() > 1 && letter_escape(s[1]) is Some {
        seq![letter_escape(s[1])->0] + unescaped(s.skip(2))
    } else if s[0] == 92 && octal_escape(s) {
        seq![((s[1] - 48) * 64 + (s[2] - 48) * 8 + (s[3] - 48)) as u8] + unescaped(s.skip(4))
    } else {
        seq![s[0]] + unescaped(s.skip(1))
    }
}

fn find_letter_escape(b: u8) -> (r: Option<u8>)
    ensures
        r == letter_escape(b),
{
    if b == 97 {
        Some(7)
    } else if b == 98 {
        Some(8)
    } else if b == 116 {
        Some(9)
    } else if b == 110 {
        Some(10)
    } else if b == 118 {
        Some(11)
    } else if b == 102 {
        Some(12)
    } else if b == 114 {
        Some(13)
    } else if b == 34 || b == 92 {
        Some(b)
    } else {
        None
    }
}

fn unescape(s: &[u8]) -> (r: Vec<u8>)
    ensures
        r@ == unescaped(s@),
{
    let mut out: Vec<u8> = Vec::new();
    let mut i: usize = 0;
    assert(s@.skip(0) =~= s@);
    assert(out@ + unescaped(s@) =~= unescaped(s@));
    while i < s.len()
        invariant
            i <= s@.len(),
            unescaped(s@) == out@ + unescaped(s@.skip(i as int)),
        decreases s@.len() - i,
    {
        let ghost rest = s@.skip(i as int);
        let ghost before = out@;
        let left: usize = s.len() - i;
        let letter: Option<u8> = if s[i] == 92 && left > 1 {
            find_letter_escape(s[i + 1])
        } else {
            None
        };
        if let Some(b) = letter {
            out.push(b);
            i = i + 2;
            proof {
                assert(rest.skip(2) =~= s@.skip(i as int));
                assert(before + (seq![b] + unescaped(rest.skip(2))) =~= out@ + unescaped(
                    rest.skip(2),
                ));
            }
        } else if s[i] == 92 && left >= 4 && 48 <= s[i + 1] && s[i + 1] <= 51 && 48 <= s[i + 2]
            && s[i + 2] <= 55 && 48 <= s[i + 3] && s[i + 3] <= 55 {
            let b: u8 = (s[i + 1] - 48) * 64 + (s[i + 2] - 48) * 8 + (s[i + 3] - 48);
            out.push(b);
            i = i + 4;
            proof {
                assert(octal_escape(rest));
                assert(rest.skip(4) =~= s@.skip(i as int));
                assert(before + (seq![b] + unescaped(rest.skip(4))) =~= out@ + unescaped(
                    rest.skip(4),
                ));
            }
        } else {
            let b: u8 = s[i];
            out.push(b);
            i = i + 1;
            proof {
                assert(!(rest[0] == 92 && octal_escape(rest)));
                assert(rest.skip(1) =~= s@.skip(i as int));
                assert(before + (seq![b] + unescaped(rest.skip(1))) =~= out@ + unescaped(
                    rest.skip(1),
                ));
            }
        }
    }
    assert(unescaped(s@.skip(i as int)) =~= seq![]);
    assert(out@ =~= unescaped(s@));
    out
}

/// Whether a field is quoted.
pub open spec fn is_quoted(field: Seq<char>) -> bool {
    field.len() >= 2 && field[0] == '"' && field.last() == '"'
}

/// The path that a field of the listing says.
pub open spec fn unquoted(field: Seq<char>) -> Seq<char> {
    if is_quoted(field) {
        text::lossy_text(unescaped(encode_utf8(field.subrange(1, field.len() - 1))))
    } else {
        field
    }
}

fn unquote(v: &Vec<char>, from: usize) -> (r: String)
    requires
        from <= v@.len(),
    ensures
        r@ == unquoted(v@.skip(from as int)),
{
    let ghost field = v@.skip(from as int);
    let len: usize = v.len();
    if len - from >= 2 && v[from] == '"' && v[len - 1] == '"' {
        let inner = string_of(v, from + 1, len - 1);
        assert(inner@ =~= field.subrange(1, field.len() - 1));
        let bytes = unescape(inner.as_str().as_bytes());
        from_utf8_lossy(bytes.as_slice())
    } else {
        assert(v@.subrange(from as int, len as int) =~= field);
        string_of(v, from, len)
    }
}

// ── Renamed files ───────────────────────────────────────────────────────────

/// Whether a status is that of a file that was renamed or copied.
pub open spec fn renames(status: Seq<char>) -> bool {
    status.contains('R') || status.contains('C')
}

/// Whether an arrow stands at index `i`.
pub open spec fn is_arrow(s: Seq<char>, i: int) -> bool {
    0 <= i && i + 4 <= s.len() && s[i] == ' ' && s[i + 1] == '-' && s[i + 2] == '>' && s[i + 3]
        == ' '
}

/// The index of the first arrow from `i` on that does not stand between quotes, or the
/// length of the text.
pub open spec fn arrow(s: Seq<char>, i: int, quoted: bool) -> int
    decreases s.len() + 1 - i,
{
    if i < 0 || i >= s.len() {
        s.len() as int
    } else if quoted {
        if s[i] == '\\' {
            arrow(s, i + 2, true)
        } else {
            arrow(s, i + 1, s[i] != '"')
        }
    } else if is_arrow(s, i) {
        i
    } else {
        arrow(s, i + 1, s[i] == '"')
    }
}

/// The path of a file, from what its line says behind the status: of a renamed or copied
/// file the new one.
pub open spec fn path_of(status: Seq<char>, fields: Seq<char>) -> Seq<char> {
    let end = arrow(fields, 0, false);
    if renames(status) && end < fields.len() {
        unquoted(fields.skip(end + 4))
    } else {
        unquoted(fields)
    }
}

fn has_renamed(status: &str) -> (r: bool)
    ensures
        r == renames(status@),
{
    let v = chars_of(status);
    for i in 0..v.len()
        invariant
            v@ == status@,
            forall|j: int| 0 <= j < i ==> #[trigger] v@[j] != 'R' && v@[j] != 'C',
    {
        if v[i] == 'R' || v[i] == 'C' {
            assert(status@[i as int] == v@[i as int]);
            return true;
        }
    }
    false
}

fn find_arrow(v: &Vec<char>) -> (r: usize)
    ensures
        r == arrow(v@, 0, false),
        r < v@.len() ==> r + 4 <= v@.len(),
{
    let len: usize = v.len();
    let mut i: usize = 0;
    let mut quoted: bool = false;
    while i < len
        invariant
            len == v@.len(),
            i <= len,
            arrow(v@, i as int, quoted) == arrow(v@, 0, false),
        decreases len - i,
    {
        let c: char = v[i];
        if quoted {
            if c == '\\' {
                if len - i < 2 {
                    assert(arrow(v@, i + 2, true) == len);
                    return len;
                }
                i = i + 2;
            } else {
                quoted = c != '"';
                i = i + 1;
            }
        } else if len - i >= 4 && c == ' ' && v[i + 1] == '-' && v[i + 2] == '>' && v[i + 3] == ' ' {
            return i;
        } else {
            quoted = c == '"';
            i = i + 1;
        }
    }
    len
}

/// Reads the path of a file from what its line says behind the status.
pub fn read_path(status: &str, fields: &str) -> (r: String)
    ensures
        r@ == path_of(status@, fields@),
{
    let v = chars_of(fields);
    let end: usize = find_arrow(&v);
    if has_renamed(status) && end < v.len() {
        unquote(&v, end + 4)
    } else {
        assert(v@.skip(0) =~= v@);
        unquote(&v, 0)
    }
}

// ── What git writes ─────────────────────────────────────────────────────────

/// What stands for a byte between quotes.
pub open spec fn escaped_byte(b: u8) -> Seq<u8> {
    if b == 7 {
        seq![92, 97]
    } else if b == 8 {
        seq![92, 98]
    } else if b == 9 {
        seq![92, 116]
    } else if b == 10 {
        seq![92, 110]
    } else if b == 11 {
        seq![92, 118]
    } else if b == 12 {
        seq![92, 102]
    } else if b == 13 {
        seq![92, 114]
    } else if b == 34 || b == 92 {
        seq![92, b]
    } else if b < 32 || b >= 127 {
        seq![92, (48 + b / 64) as u8, (48 + b / 8 % 8) as u8, (48 + b % 8) as u8]
    } else {
        seq![b]
    }
}

/// What stands for these bytes between quotes.
pub open spec fn escaped(bytes: Seq<u8>) -> Seq<u8>
    decreases bytes.len(),
{
    if bytes.len() == 0 {
        seq![]
    } else {
        escaped_byte(bytes[0]) + escaped(bytes.skip(1))
    }
}

/// ASCII bytes as characters.
pub open spec fn as_chars(bytes: Seq<u8>) -> Seq<char> {
    bytes.map_values(|b: u8| b as char)
}

/// A path in quotes.
pub open spec fn c_quoted(path: Seq<char>) -> Seq<char> {
    seq!['"'] + as_chars(escaped(encode_utf8(path))) + seq!['"']
}

/// Whether a path can stand without quotes.
pub open spec fn bare(path: Seq<char>) -> bool {
    path.len() > 0 && forall|i: int|
        0 <= i < path.len() ==> #[trigger] path[i] > ' ' && path[i] != '"'
}

/// Whether a field says a path: as it is, where it can stand so, or in quotes.
pub open spec fn says(field: Seq<char>, path: Seq<char>) -> bool {
    bare(path) && field == path || field == c_quoted(path)
}

proof fn lemma_escaped_byte(b: u8, rest: Seq<u8>)
    ensures
        unescaped(escaped_byte(b) + rest) == seq![b] + unescaped(rest),
        forall|i: int|
            0 <= i < escaped_byte(b).len() ==> 32 <= #[trigger] escaped_byte(b)[i] < 127,
{
    let e = escaped_byte(b);
    let s = e + rest;
    assert(s.skip(e.len() as int) =~= rest);
    if e.len() == 4 {
        assert(s[1] == 48 + b / 64 && s[2] == 48 + b / 8 % 8 && s[3] == 48 + b % 8);
        assert((b / 64) * 64 + (b / 8 % 8) * 8 + b % 8 == b) by (bit_vector);
        assert(letter_escape(s[1]) is None);
        assert(octal_escape(s));
        assert((s[1] - 48) * 64 + (s[2] - 48) * 8 + (s[3] - 48) == b);
    }
}

proof fn lemma_escaped(bytes: Seq<u8>)
    ensures
        unescaped(escaped(bytes)) == bytes,
        forall|i: int| 0 <= i < escaped(bytes).len() ==> 32 <= #[trigger] escaped(bytes)[i] < 127,
    decreases bytes.len(),
{
    if bytes.len() > 0 {
        let e = escaped_byte(bytes[0]);
        let rest = escaped(bytes.skip(1));
        lemma_escaped(bytes.skip(1));
        lemma_escaped_byte(bytes[0], rest);
        assert(seq![bytes[0]] + bytes.skip(1) =~= bytes);
        assert forall|i: int| 0 <= i < escaped(bytes).len() implies 32
            <= #[trigger] escaped(bytes)[i] < 127 by {
            if i < e.len() {
                assert(escaped(bytes)[i] == e[i]);
            } else {
                assert(escaped(bytes)[i] == rest[i - e.len()]);
            }
        }
    } else {
        assert(unescaped(escaped(bytes)) =~= bytes);
    }
}

proof fn lemma_as_chars(bytes: Seq<u8>)
    requires
        forall|i: int| 0 <= i < bytes.len() ==> #[trigger] bytes[i] < 128,
    ensures
        encode_utf8(as_chars(bytes)) == bytes,
{
    let chars = as_chars(bytes);
    assert forall|i: int| 0 <= i < chars.len() implies '\0' <= #[trigger] chars[i] <= '\u{7f}' by {
        assert(bytes[i] < 128);
    }
    is_ascii_chars_encode_utf8(chars);
    assert forall|i: int| 0 <= i < bytes.len() implies #[trigger] encode_utf8(chars)[i]
        == bytes[i] by {
        assert(bytes[i] < 128);
        assert(chars[i] as u8 == bytes[i]);
    }
    assert(encode_utf8(chars) =~= bytes);
}

/// A field that says a path is read as that path.
pub proof fn law_field_is_read_back(field: Seq<char>, path: Seq<char>)
    requires
        says(field, path),
    ensures
        unquoted(field) == path,
{
    if field == c_quoted(path) {
        let bytes = encode_utf8(path);
        lemma_escaped(bytes);
        lemma_as_chars(escaped(bytes));
        assert(field.subrange(1, field.len() - 1) =~= as_chars(escaped(bytes)));
        encode_utf8_valid_utf8(path);
        encode_utf8_decode_utf8(path);
    } else {
        assert(field[0] != '"');
    }
}

/// A field that says a path holds no control character, and is not empty.
pub proof fn lemma_field_is_printable(field: Seq<char>, path: Seq<char>)
    requires
        says(field, path),
    ensures
        field.len() > 0,
        field.last() > ' ',
        forall|i: int| 0 <= i < field.len() ==> #[trigger] field[i] >= ' ',
{
    if field == c_quoted(path) {
        let e = escaped(encode_utf8(path));
        lemma_escaped(encode_utf8(path));
        assert forall|i: int| 0 <= i < field.len() implies #[trigger] field[i] >= ' ' by {
            if 0 < i < field.len() - 1 {
                assert(field[i] == as_chars(e)[i - 1]);
                assert(32 <= e[i - 1] < 127);
            }
        }
    } else {
        assert(field[field.len() - 1] > ' ');
    }
}

proof fn lemma_arrow_skips_bare(s: Seq<char>, i: int, n: int)
    requires
        0 <= i <= n <= s.len(),
        forall|j: int| i <= j < n ==> #[trigger] s[j] > ' ' && s[j] != '"',
    ensures
        arrow(s, i, false) == arrow(s, n, false),
    decreases n - i,
{
    if i < n {
        assert(s[i] > ' ' && s[i] != '"');
        lemma_arrow_skips_bare(s, i + 1, n);
    }
}

proof fn lemma_arrow_skips_escaped(s: Seq<char>, i: int, bytes: Seq<u8>)
    requires
        0 <= i,
        i + escaped(bytes).len() <= s.len(),
        s.subrange(i, i + escaped(bytes).len()) == as_chars(escaped(bytes)),
    ensures
        arrow(s, i, true) == arrow(s, i + escaped(bytes).len(), true),
    decreases bytes.len(),
{
    if bytes.len() > 0 {
        let e = escaped_byte(bytes[0]);
        let rest = escaped(bytes.skip(1));
        let all = escaped(bytes);
        let part = s.subrange(i, i + all.len());
        assert forall|j: int| 0 <= j < e.len() implies #[trigger] s[i + j] == e[j] as char by {
            assert(part[j] == as_chars(all)[j]);
            assert(all[j] == e[j]);
        }
        lemma_escaped_byte(bytes[0], rest);
        assert(s[i + 0] == e[0] as char);
        if e.len() == 2 {
            assert(arrow(s, i, true) == arrow(s, i + 2, true));
        } else if e.len() == 4 {
            assert(s[i + 2] == e[2] as char);
            assert(s[i + 3] == e[3] as char);
            assert(arrow(s, i, true) == arrow(s, i + 2, true));
            assert(arrow(s, i + 2, true) == arrow(s, i + 3, true));
            assert(arrow(s, i + 3, true) == arrow(s, i + 4, true));
        } else {
            assert(arrow(s, i, true) == arrow(s, i + 1, true));
        }
        let k = i + e.len();
        assert(s.subrange(k, k + rest.len()) =~= as_chars(rest)) by {
            assert forall|j: int| 0 <= j < rest.len() implies s[k + j] == #[trigger] as_chars(
                rest,
            )[j] by {
                assert(part[e.len() + j] == as_chars(all)[e.len() + j]);
                assert(all[e.len() + j] == rest[j]);
            }
        }
        lemma_arrow_skips_escaped(s, k, bytes.skip(1));
    }
}

/// Of a renamed or copied file the new path is read, whatever the old one is.
pub proof fn law_renamed_file_is_read_back(
    status: Seq<char>,
    old_field: Seq<char>,
    old_path: Seq<char>,
    field: Seq<char>,
    path: Seq<char>,
)
    requires
        renames(status),
        says(old_field, old_path),
        says(field, path),
    ensures
        path_of(status, old_field + seq![' ', '-', '>', ' '] + field) == path,
{
    let s = old_field + seq![' ', '-', '>', ' '] + field;
    let n = old_field.len() as int;
    assert(is_arrow(s, n));
    if old_field == c_quoted(old_path) {
        let bytes = encode_utf8(old_path);
        let inner = as_chars(escaped(bytes));
        assert(s[0] == '"');
        assert(arrow(s, 0, false) == arrow(s, 1, true));
        assert(s.subrange(1, n - 1) =~= inner);
        lemma_arrow_skips_escaped(s, 1, bytes);
        assert(s[n - 1] == '"');
        assert(arrow(s, n - 1, true) == arrow(s, n, false));
    } else {
        assert forall|j: int| 0 <= j < n implies #[trigger] s[j] > ' ' && s[j] != '"' by {
            assert(s[j] == old_path[j]);
        }
        lemma_arrow_skips_bare(s, 0, n);
    }
    assert(arrow(s, 0, false) == n);
    assert(s.skip(n + 4) =~= field);
    law_field_is_read_back(field, path);
}

/// Of any other file the path is read.
pub proof fn law_other_file_is_read_back(status: Seq<char>, field: Seq<char>, path: Seq<char>)
    requires
        !renames(status),
        says(field, path),
    ensures
        path_of(status, field) == path,
{
    law_field_is_read_back(field, path);
}

} // verus!
