//! Unix paths, as far as the server looks into them.
//!
//! A path is read as the standard library reads it: repeated separators count once,
//! and a `.` component counts only at the beginning of the path.

use vstd::prelude::*;
use vstd::string::*;

use crate::text;
use crate::text::{chars_of, string_of, text_eq};

verus! {

/// Whether a path starts at the root directory.
pub open spec fn absolute(p: Seq<char>) -> bool {
    p.len() > 0 && p[0] == '/'
}

/// A path without what counts for nothing at its end: separators and `.` components.
/// Of a path that names the root directory nothing is left.
pub open spec fn without_trailer(p: Seq<char>) -> Seq<char>
    decreases p.len(),
{
    if p.len() > 0 && p.last() == '/' {
        without_trailer(p.drop_last())
    } else if p.len() > 1 && p.last() == '.' && p[p.len() - 2] == '/' {
        without_trailer(p.drop_last())
    } else {
        p
    }
}

/// What stands behind the last separator of a path.
pub open spec fn last_part(p: Seq<char>) -> Seq<char>
    decreases p.len(),
{
    if p.len() == 0 || p.last() == '/' {
        seq![]
    } else {
        last_part(p.drop_last()).push(p.last())
    }
}

/// The final component of a path, if it is a name: not the root directory, `.` or `..`.
pub open spec fn final_name(p: Seq<char>) -> Option<Seq<char>> {
    let name = last_part(without_trailer(p));
    if name.len() == 0 || name == seq!['.'] || name == seq!['.', '.'] {
        None
    } else {
        Some(name)
    }
}

/// The path without its final component, if it has one that is not the root directory.
pub open spec fn parent_path(p: Seq<char>) -> Option<Seq<char>> {
    let t = without_trailer(p);
    let head = t.take(t.len() - last_part(t).len());
    let h = without_trailer(head);
    if t.len() == 0 {
        None
    } else if head.len() > 0 && h.len() == 0 {
        Some(seq!['/'])
    } else {
        Some(h)
    }
}

/// The relative path `p` taken from the directory `base`.
pub open spec fn path_below(base: Seq<char>, p: Seq<char>) -> Seq<char> {
    if base.len() == 0 || base.last() == '/' {
        base + p
    } else {
        base + seq!['/'] + p
    }
}

/// The file named by `file` in a configuration that was read from `config_path`: an
/// absolute path and an empty one stand for themselves, a relative path is taken from
/// the directory of the configuration file.
pub open spec fn file_beside(config_path: Seq<char>, file: Seq<char>) -> Seq<char> {
    if file.len() == 0 || absolute(file) {
        file
    } else {
        match parent_path(config_path) {
            Some(base) => path_below(base, file),
            None => path_below(seq!['.'], file),
        }
    }
}

/// The length of `v[..len]` without its trailer.
fn trailer_start(v: &Vec<char>, len: usize) -> (r: usize)
    requires
        len <= v@.len(),
    ensures
        r <= len,
        v@.take(r as int) == without_trailer(v@.take(len as int)),
{
    let mut n: usize = len;
    while n > 0 && (v[n - 1] == '/' || (n > 1 && v[n - 1] == '.' && v[n - 2] == '/'))
        invariant
            n <= len <= v@.len(),
            without_trailer(v@.take(n as int)) == without_trailer(v@.take(len as int)),
        decreases n,
    {
        assert(v@.take(n as int).drop_last() =~= v@.take(n - 1));
        n = n - 1;
    }
    n
}

/// The index in `v[..len]` behind its last separator.
fn last_part_start(v: &Vec<char>, len: usize) -> (r: usize)
    requires
        len <= v@.len(),
    ensures
        r <= len,
        v@.subrange(r as int, len as int) == last_part(v@.take(len as int)),
{
    let mut n: usize = len;
    while n > 0 && v[n - 1] != '/'
        invariant
            n <= len <= v@.len(),
            last_part(v@.take(len as int)) == last_part(v@.take(n as int)) + v@.subrange(
                n as int,
                len as int,
            ),
        decreases n,
    {
        proof {
            assert(v@.take(n as int).drop_last() =~= v@.take(n - 1));
            assert(last_part(v@.take(n as int)) + v@.subrange(n as int, len as int) =~= last_part(
                v@.take(n - 1),
            ) + v@.subrange(n - 1, len as int));
        }
        n = n - 1;
    }
    assert(last_part(v@.take(n as int)) =~= seq![]);
    assert(v@.subrange(n as int, len as int) =~= last_part(v@.take(len as int)));
    n
}

/// The final component of a path, if it is a name.
pub fn file_name(p: &str) -> (r: Option<String>)
    ensures
        text::opt_text(r) == final_name(p@),
{
    let v = chars_of(p);
    assert(v@.take(v@.len() as int) =~= p@);
    let len: usize = trailer_start(&v, v.len());
    let from: usize = last_part_start(&v, len);
    let name = string_of(&v, from, len);
    let one = ".";
    let two = "..";
    proof {
        reveal_strlit(".");
        reveal_strlit("..");
        assert(one@ =~= seq!['.']);
        assert(two@ =~= seq!['.', '.']);
    }
    if from == len || text_eq(name.as_str(), one) || text_eq(name.as_str(), two) {
        None
    } else {
        Some(name)
    }
}

/// The directory that holds the final component of a path.
pub fn parent(p: &str) -> (r: Option<String>)
    ensures
        text::opt_text(r) == parent_path(p@),
{
    let v = chars_of(p);
    assert(v@.take(v@.len() as int) =~= p@);
    let len: usize = trailer_start(&v, v.len());
    if len == 0 {
        return None;
    }
    let from: usize = last_part_start(&v, len);
    proof {
        let t = v@.take(len as int);
        assert(t.take(t.len() - last_part(t).len()) =~= v@.take(from as int));
    }
    let end: usize = trailer_start(&v, from);
    assert(v@.subrange(0, end as int) =~= v@.take(end as int));
    assert(v@.subrange(0, 0) =~= seq![]);
    if from > 0 && end == 0 {
        let mut root: String = String::new();
        root.push('/');
        assert(root@ =~= seq!['/']);
        Some(root)
    } else {
        Some(string_of(&v, 0, end))
    }
}

/// Takes the relative path `p` from the directory `base`.
pub fn join_path(base: &str, p: &str) -> (r: String)
    ensures
        r@ == path_below(base@, p@),
{
    let v = chars_of(base);
    let mut out: String = base.to_owned();
    if v.len() > 0 && v[v.len() - 1] != '/' {
        out.push('/');
        assert(out@ =~= base@ + seq!['/']);
    }
    out.concat(p)
}

/// Finds a file that a configuration names: see `file_beside`.
pub fn resolve_beside(config_path: &str, file: &str) -> (r: String)
    ensures
        r@ == file_beside(config_path@, file@),
{
    let v = chars_of(file);
    if v.len() == 0 || v[0] == '/' {
        return file.to_owned();
    }
    match parent(config_path) {
        Some(base) => join_path(base.as_str(), file),
        None => {
            let here = ".";
            proof {
                reveal_strlit(".");
                assert(here@ =~= seq!['.']);
            }
            join_path(here, file)
        },
    }
}

} // verus!
