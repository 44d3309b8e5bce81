//! A verified model of relative paths as `/`-separated strings.
//!
//! Throughout the crate a path is a string whose components are separated
//! by single `/` characters and whose roots carry no trailing slash; a
//! file's extension is what follows the last `.` of its final component,
//! provided that `.` is not the component's first character.

use vstd::prelude::*;
use crate::text::{str_eq, str_starts_with};

verus! {

/// The index of the last occurrence of `c` in `s`, or `-1` if there is
/// none.
pub open spec fn last_index(s: Seq<char>, c: char) -> int
    decreases s.len(),
{
    if s.len() == 0 {
        -1
    } else if s[s.len() - 1] == c {
        s.len() - 1
    } else {
        last_index(s.drop_last(), c)
    }
}

pub proof fn lemma_last_index(s: Seq<char>, c: char)
    ensures
        -1 <= last_index(s, c) < s.len(),
        last_index(s, c) >= 0 ==> s[last_index(s, c)] == c,
        forall|j: int| last_index(s, c) < j < s.len() ==> s[j] != c,
    decreases s.len(),
{
    if s.len() > 0 && s[s.len() - 1] != c {
        lemma_last_index(s.drop_last(), c);
        assert(forall|j: int| 0 <= j < s.len() - 1 ==> s.drop_last()[j] == s[j]);
    }
}

/// The last index is the unique position holding `c` with none after it.
pub proof fn lemma_last_index_unique(s: Seq<char>, c: char, i: int)
    requires
        0 <= i < s.len(),
        s[i] == c,
        forall|j: int| i < j < s.len() ==> s[j] != c,
    ensures
        last_index(s, c) == i,
    decreases s.len(),
{
    if i == s.len() - 1 {
    } else {
        assert(s[s.len() - 1] != c);
        assert(forall|j: int| 0 <= j < s.len() - 1 ==> s.drop_last()[j] == s[j]);
        lemma_last_index_unique(s.drop_last(), c, i);
    }
}

/// The final component of a path: what follows the last `/`.
pub open spec fn file_name_of(p: Seq<char>) -> Seq<char> {
    p.subrange(last_index(p, '/') + 1, p.len() as int)
}

/// The leading part of a path up to and including its last `/`; empty for
/// a bare file name.
pub open spec fn dir_prefix_of(p: Seq<char>) -> Seq<char> {
    p.subrange(0, last_index(p, '/') + 1)
}

/// A final component holds no `/`.
pub proof fn lemma_file_name_no_slash(p: Seq<char>)
    ensures
        last_index(file_name_of(p), '/') == -1,
{
    let n = file_name_of(p);
    lemma_last_index(p, '/');
    lemma_last_index(n, '/');
    if last_index(n, '/') >= 0 {
        let k = last_index(n, '/');
        assert(n[k] == p[k + last_index(p, '/') + 1]);
        assert(p[k + last_index(p, '/') + 1] != '/');
    }
}

/// The position of the extension dot within the final component, or `-1`
/// or `0` when the component has no extension.
pub open spec fn name_dot(p: Seq<char>) -> int {
    last_index(file_name_of(p), '.')
}

/// The path without its extension (and without the dot).
pub open spec fn strip_ext_of(p: Seq<char>) -> Seq<char> {
    if name_dot(p) > 0 {
        p.subrange(0, p.len() - file_name_of(p).len() + name_dot(p))
    } else {
        p
    }
}

/// The extension of the final component, empty when there is none.
pub open spec fn ext_of(p: Seq<char>) -> Seq<char> {
    if name_dot(p) > 0 {
        file_name_of(p).subrange(name_dot(p) + 1, file_name_of(p).len() as int)
    } else {
        Seq::empty()
    }
}

/// The path with its extension replaced by `e`, or removed when `e` is
/// empty.
pub open spec fn with_ext_of(p: Seq<char>, e: Seq<char>) -> Seq<char> {
    if e.len() == 0 {
        strip_ext_of(p)
    } else {
        strip_ext_of(p) + seq!['.'] + e
    }
}

/// The path with its final component replaced by `name`.
pub open spec fn with_file_name_of(p: Seq<char>, name: Seq<char>) -> Seq<char> {
    dir_prefix_of(p) + name
}

/// `b` appended below `a`.
pub open spec fn join_of(a: Seq<char>, b: Seq<char>) -> Seq<char> {
    if a.len() == 0 {
        b
    } else {
        a + seq!['/'] + b
    }
}

/// The remainder of `p` below the root `base`: the whole of `p` under an
/// empty root, empty when `p` is the root itself, and `None` when `p`
/// does not lie under `base`.
pub open spec fn child_of(p: Seq<char>, base: Seq<char>) -> Option<Seq<char>> {
    if base.len() == 0 {
        Some(p)
    } else if p.len() > base.len() && p.subrange(0, base.len() as int) == base && p[
        base.len() as int
    ] == '/' {
        Some(p.subrange(base.len() as int + 1, p.len() as int))
    } else if p == base {
        Some(Seq::empty())
    } else {
        None
    }
}

/// Whether `p` equals `q` or lies below it, component-wise.
pub open spec fn path_starts_with(p: Seq<char>, q: Seq<char>) -> bool {
    child_of(p, q) is Some
}

/// The index of the last occurrence of `c`, scanning executably.
pub fn last_index_of(s: &str, c: char) -> (r: Option<usize>)
    ensures
        r matches Some(i) ==> i as int == last_index(s@, c) && i < s@.len(),
        r is None ==> last_index(s@, c) == -1,
{
    let len = s.unicode_len();
    let mut i: usize = len;
    loop
        invariant
            i <= len,
            len == s@.len(),
            forall|j: int| i <= j < len ==> s@[j] != c,
        ensures
            forall|j: int| 0 <= j < len ==> s@[j] != c,
        decreases i,
    {
        if i == 0 {
            break;
        }
        i = i - 1;
        if s.get_char(i) == c {
            proof {
                lemma_last_index_unique(s@, c, i as int);
            }
            return Some(i);
        }
    }
    proof {
        lemma_last_index(s@, c);
    }
    None
}

/// The final component of `p`.
pub fn path_file_name(p: &str) -> (r: String)
    ensures
        r@ == file_name_of(p@),
{
    let len = p.unicode_len();
    match last_index_of(p, '/') {
        Some(i) => p.substring_char(i + 1, len).to_owned(),
        None => {
            proof {
                assert(file_name_of(p@) =~= p@);
            }
            p.to_owned()
        },
    }
}

/// Where the final component of `p` begins.
fn name_start_of(p: &str) -> (r: usize)
    ensures
        r as int == last_index(p@, '/') + 1,
        r <= p@.len(),
{
    proof {
        lemma_last_index(p@, '/');
    }
    let len = p.unicode_len();
    match last_index_of(p, '/') {
        Some(i) => i + 1,
        None => 0,
    }
}

/// Relates the last dot of a whole path to the last dot of its final
/// component.
proof fn lemma_name_dot(p: Seq<char>, d: int)
    requires
        d == last_index(p, '.'),
    ensures
        d > last_index(p, '/') + 1 ==> name_dot(p) == d - (last_index(p, '/') + 1),
        d <= last_index(p, '/') + 1 ==> name_dot(p) <= 0,
{
    let ns = last_index(p, '/') + 1;
    let n = file_name_of(p);
    lemma_last_index(p, '.');
    lemma_last_index(p, '/');
    lemma_last_index(n, '.');
    if d > ns {
        assert(n[d - ns] == p[d] && p[d] == '.');
        assert(forall|j: int| d - ns < j < n.len() ==> n[j] == p[j + ns] && p[j + ns] != '.');
        lemma_last_index_unique(n, '.', d - ns);
    } else {
        if name_dot(p) > 0 {
            let k = name_dot(p);
            assert(n[k] == p[k + ns] && n[k] == '.');
            assert(k + ns > d);
            assert(p[k + ns] != '.');
        }
    }
}

/// The path with its extension replaced by `e`, or removed when `e` is
/// empty.
pub fn path_with_extension(p: &str, e: &str) -> (r: String)
    ensures
        r@ == with_ext_of(p@, e@),
{
    let len = p.unicode_len();
    let ns = name_start_of(p);
    let stem_end: usize = match last_index_of(p, '.') {
        Some(d) => {
            proof {
                lemma_name_dot(p@, d as int);
            }
            if d > ns {
                d
            } else {
                len
            }
        },
        None => {
            proof {
                lemma_name_dot(p@, -1);
            }
            len
        },
    };
    proof {
        if stem_end < len {
            assert(strip_ext_of(p@) == p@.subrange(0, stem_end as int));
        } else {
            assert(strip_ext_of(p@) =~= p@.subrange(0, stem_end as int));
        }
    }
    let mut out = p.substring_char(0, stem_end).to_owned();
    if e.unicode_len() == 0 {
        proof {
            assert(out@ =~= with_ext_of(p@, e@));
        }
        out
    } else {
        proof {
            reveal_strlit(".");
        }
        out.append(".");
        out.append(e);
        proof {
            assert(out@ =~= with_ext_of(p@, e@));
        }
        out
    }
}

/// The extension of the final component of `p`, empty when there is
/// none.
pub fn path_extension(p: &str) -> (r: String)
    ensures
        r@ == ext_of(p@),
{
    let len = p.unicode_len();
    let ns = name_start_of(p);
    match last_index_of(p, '.') {
        Some(d) => {
            proof {
                lemma_name_dot(p@, d as int);
            }
            if d > ns {
                let r = p.substring_char(d + 1, len).to_owned();
                proof {
                    assert(r@ =~= ext_of(p@));
                }
                r
            } else {
                String::new()
            }
        },
        None => {
            proof {
                lemma_name_dot(p@, -1);
            }
            String::new()
        },
    }
}

/// The stem of a bare file name: what precedes its extension dot.
pub fn name_stem(n: &str) -> (r: String)
    requires
        last_index(n@, '/') == -1,
    ensures
        r@ == strip_ext_of(n@),
{
    proof {
        assert(file_name_of(n@) =~= n@);
    }
    let len = n.unicode_len();
    match last_index_of(n, '.') {
        Some(d) => {
            proof {
                lemma_name_dot(n@, d as int);
            }
            if d > 0 {
                n.substring_char(0, d).to_owned()
            } else {
                n.to_owned()
            }
        },
        None => {
            proof {
                lemma_name_dot(n@, -1);
            }
            n.to_owned()
        },
    }
}

/// The path with its final component replaced by `name`.
pub fn path_with_file_name(p: &str, name: &str) -> (r: String)
    ensures
        r@ == with_file_name_of(p@, name@),
{
    let ns = name_start_of(p);
    let mut out = p.substring_char(0, ns).to_owned();
    out.append(name);
    out
}

/// `b` appended below `a`.
pub fn path_join(a: &str, b: &str) -> (r: String)
    ensures
        r@ == join_of(a@, b@),
{
    if a.unicode_len() == 0 {
        b.to_owned()
    } else {
        let mut out = a.to_owned();
        proof {
            reveal_strlit("/");
        }
        out.append("/");
        out.append(b);
        proof {
            assert(out@ =~= join_of(a@, b@));
        }
        out
    }
}

/// The remainder of `p` below `base`, when `p` lies under it.
pub fn path_strip_prefix(p: &str, base: &str) -> (r: Option<String>)
    ensures
        r is Some <==> child_of(p@, base@) is Some,
        r matches Some(rest) ==> child_of(p@, base@) == Some(rest@),
{
    let lp = p.unicode_len();
    let lb = base.unicode_len();
    if lb == 0 {
        return Some(p.to_owned());
    }
    if lp > lb && str_starts_with(p, base) && p.get_char(lb) == '/' {
        return Some(p.substring_char(lb + 1, lp).to_owned());
    }
    if str_eq(p, base) {
        return Some(String::new());
    }
    None
}

/// Whether `p` equals `base` or lies below it.
pub fn path_starts_with_exec(p: &str, base: &str) -> (r: bool)
    ensures
        r == path_starts_with(p@, base@),
{
    let lp = p.unicode_len();
    let lb = base.unicode_len();
    if lb == 0 {
        return true;
    }
    if lp > lb && str_starts_with(p, base) && p.get_char(lb) == '/' {
        return true;
    }
    str_eq(p, base)
}

} // verus!
