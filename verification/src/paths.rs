//! Unix path handling on character sequences: file names, stems,
//! extensions and joins (with the component rules of `std::path`), and
//! the database locations of the CLI and desktop apps.

use vstd::prelude::*;
use crate::text::{to_chars, from_chars, substring};

verus! {

/// Index of the last `/` in `p`, or -1 when there is none.
pub open spec fn last_slash(p: Seq<char>) -> int
    decreases p.len(),
{
    if p.len() == 0 {
        -1
    } else if p.last() == '/' {
        p.len() - 1
    } else {
        last_slash(p.drop_last())
    }
}

pub proof fn lemma_last_slash(p: Seq<char>)
    ensures
        -1 <= last_slash(p) < p.len(),
        last_slash(p) >= 0 ==> p[last_slash(p)] == '/',
        forall|i: int| last_slash(p) < i < p.len() ==> p[i] != '/',
    decreases p.len(),
{
    if p.len() > 0 && p.last() != '/' {
        lemma_last_slash(p.drop_last());
        assert forall|i: int| last_slash(p) < i < p.len() implies p[i] != '/' by {
            if i < p.len() - 1 {
                assert(p[i] == p.drop_last()[i]);
            }
        }
    }
}

/// The last component of `p` that is neither empty nor `.`: separators
/// that repeat or trail, and `.` components, are not components.
pub open spec fn last_component(p: Seq<char>) -> Option<Seq<char>>
    decreases p.len(),
{
    if p.len() == 0 {
        None
    } else {
        let k = last_slash(p);
        let seg = p.subrange(k + 1, p.len() as int);
        if seg.len() == 0 || seg == seq!['.'] {
            if k < 0 {
                None
            } else {
                proof {
                    lemma_last_slash(p);
                }
                last_component(p.take(k))
            }
        } else {
            Some(seg)
        }
    }
}

/// The final component of a path, unless it is `..` or there is none.
pub open spec fn file_name_of(p: Seq<char>) -> Option<Seq<char>> {
    match last_component(p) {
        Some(c) => if c == seq!['.', '.'] { None } else { Some(c) },
        None => None,
    }
}

/// Index of the last `.` in `s`, or -1 when there is none.
pub open spec fn last_dot(s: Seq<char>) -> int
    decreases s.len(),
{
    if s.len() == 0 {
        -1
    } else if s.last() == '.' {
        s.len() - 1
    } else {
        last_dot(s.drop_last())
    }
}

pub proof fn lemma_last_dot(s: Seq<char>)
    ensures
        -1 <= last_dot(s) < s.len(),
        last_dot(s) >= 0 ==> s[last_dot(s)] == '.',
        forall|i: int| last_dot(s) < i < s.len() ==> s[i] != '.',
    decreases s.len(),
{
    if s.len() > 0 && s.last() != '.' {
        lemma_last_dot(s.drop_last());
        assert forall|i: int| last_dot(s) < i < s.len() implies s[i] != '.' by {
            if i < s.len() - 1 {
                assert(s[i] == s.drop_last()[i]);
            }
        }
    }
}

/// The stem of a file name: the part before its last `.`, unless that
/// dot is the first character or there is none.
pub open spec fn stem_of_name(name: Seq<char>) -> Seq<char> {
    let d = last_dot(name);
    if d <= 0 { name } else { name.take(d) }
}

/// The extension of a file name: the part after its last `.`, when that
/// dot is not the first character.
pub open spec fn extension_of_name(name: Seq<char>) -> Option<Seq<char>> {
    let d = last_dot(name);
    if d <= 0 { None } else { Some(name.skip(d + 1)) }
}

/// The stem of a path's file name.
pub open spec fn file_stem_of(p: Seq<char>) -> Option<Seq<char>> {
    match file_name_of(p) {
        Some(n) => Some(stem_of_name(n)),
        None => None,
    }
}

/// The extension of a path's file name.
pub open spec fn extension_of(p: Seq<char>) -> Option<Seq<char>> {
    match file_name_of(p) {
        Some(n) => extension_of_name(n),
        None => None,
    }
}

/// `base` joined with a relative `name`: a `/` is put between them unless
/// `base` is empty or already ends with one.
pub open spec fn join_of(base: Seq<char>, name: Seq<char>) -> Seq<char> {
    if base.len() == 0 {
        name
    } else if base.last() == '/' {
        base + name
    } else {
        base + seq!['/'] + name
    }
}

/// The last `/` of `p + q`, where `q` holds none, is the last of `p`.
proof fn lemma_last_slash_append(p: Seq<char>, q: Seq<char>)
    requires
        forall|i: int| 0 <= i < q.len() ==> q[i] != '/',
    ensures
        last_slash(p + q) == last_slash(p),
    decreases q.len(),
{
    if q.len() > 0 {
        assert((p + q).drop_last() =~= p + q.drop_last());
        assert((p + q).last() == q.last());
        lemma_last_slash_append(p, q.drop_last());
    } else {
        assert(p + q =~= p);
    }
}

/// A plain file name joined onto a directory is the file name of the
/// joined path.
pub proof fn lemma_join_file_name(base: Seq<char>, name: Seq<char>)
    requires
        name.len() > 0,
        name != seq!['.'],
        name != seq!['.', '.'],
        forall|i: int| 0 <= i < name.len() ==> name[i] != '/',
    ensures
        file_name_of(join_of(base, name)) == Some(name),
{
    let j = join_of(base, name);
    let pre = j.take(j.len() - name.len());
    assert(j =~= pre + name);
    lemma_last_slash_append(pre, name);
    lemma_last_slash(pre);
    if base.len() == 0 {
        assert(pre.len() == 0);
        assert(last_slash(pre) == -1);
    } else {
        assert(pre.last() == '/');
        assert(last_slash(pre) == pre.len() - 1);
    }
    assert(j.subrange(last_slash(j) + 1, j.len() as int) =~= name);
    if name.len() == 1 {
        assert(name != seq!['.']);
    }
}

fn find_last_slash(v: &Vec<char>, end: usize) -> (r: Option<usize>)
    requires
        end <= v@.len(),
    ensures
        match r {
            None => last_slash(v@.take(end as int)) == -1,
            Some(k) => last_slash(v@.take(end as int)) == k && k < end,
        },
    decreases end,
{
    if end == 0 {
        None
    } else if v[end - 1] == '/' {
        Some(end - 1)
    } else {
        assert(v@.take(end as int).drop_last() =~= v@.take(end - 1));
        find_last_slash(v, end - 1)
    }
}

fn find_last_dot(v: &Vec<char>, end: usize) -> (r: Option<usize>)
    requires
        end <= v@.len(),
    ensures
        match r {
            None => last_dot(v@.take(end as int)) == -1,
            Some(k) => last_dot(v@.take(end as int)) == k && k < end,
        },
    decreases end,
{
    if end == 0 {
        None
    } else if v[end - 1] == '.' {
        Some(end - 1)
    } else {
        assert(v@.take(end as int).drop_last() =~= v@.take(end - 1));
        find_last_dot(v, end - 1)
    }
}

/// Bounds `(start, stop)` in `v` of the last component of `v[..end]`.
fn last_component_bounds(v: &Vec<char>, end: usize) -> (r: Option<(usize, usize)>)
    requires
        end <= v@.len(),
    ensures
        match r {
            None => last_component(v@.take(end as int)) is None,
            Some((a, b)) => a <= b <= end && last_component(v@.take(end as int)) == Some(
                v@.subrange(a as int, b as int),
            ),
        },
    decreases end,
{
    let ghost p = v@.take(end as int);
    if end == 0 {
        return None;
    }
    let k = find_last_slash(v, end);
    let start: usize = match k {
        None => 0,
        Some(k) => k + 1,
    };
    let ghost seg = p.subrange(start as int, end as int);
    assert(seg =~= v@.subrange(start as int, end as int));
    let seg_len = end - start;
    let is_dot = seg_len == 1 && v[start] == '.';
    if seg_len == 0 || is_dot {
        proof {
            if seg_len == 1 {
                assert(seg =~= seq!['.']);
            }
        }
        match k {
            None => None,
            Some(k) => {
                assert(p.take(k as int) =~= v@.take(k as int));
                last_component_bounds(v, k)
            },
        }
    } else {
        proof {
            if seg_len == 1 {
                assert(seg[0] != '.');
                assert(seg != seq!['.']);
            }
        }
        Some((start, end))
    }
}

/// Bounds of the file name of `v` in `v`.
fn file_name_bounds(v: &Vec<char>) -> (r: Option<(usize, usize)>)
    ensures
        match r {
            None => file_name_of(v@) is None,
            Some((a, b)) => a <= b <= v@.len() && file_name_of(v@) == Some(
                v@.subrange(a as int, b as int),
            ),
        },
{
    assert(v@.take(v@.len() as int) =~= v@);
    match last_component_bounds(v, v.len()) {
        None => None,
        Some((a, b)) => {
            let ghost c = v@.subrange(a as int, b as int);
            if b - a == 2 && v[a] == '.' && v[a + 1] == '.' {
                assert(c =~= seq!['.', '.']);
                None
            } else {
                proof {
                    if b - a == 2 {
                        assert(c != seq!['.', '.']) by {
                            if c == seq!['.', '.'] {
                                assert(c[0] == v@[a as int]);
                                assert(c[1] == v@[a + 1]);
                            }
                        }
                    }
                }
                Some((a, b))
            }
        },
    }
}

/// The final component of the path `p` (see [`file_name_of`]).
pub fn file_name(p: &str) -> (r: Option<String>)
    ensures
        match r {
            None => file_name_of(p@) is None,
            Some(n) => file_name_of(p@) == Some(n@),
        },
{
    let v = to_chars(p);
    match file_name_bounds(&v) {
        None => None,
        Some((a, b)) => Some(substring(&v, a, b)),
    }
}

/// Position of the stem's end inside `v[a..b]`, the file name's bounds.
fn stem_end(v: &Vec<char>, a: usize, b: usize) -> (e: usize)
    requires
        a <= b <= v@.len(),
    ensures
        a <= e <= b,
        v@.subrange(a as int, e as int) == stem_of_name(v@.subrange(a as int, b as int)),
        e == (if last_dot(v@.subrange(a as int, b as int)) <= 0 {
            b as int
        } else {
            a + last_dot(v@.subrange(a as int, b as int))
        }),
{
    let ghost name = v@.subrange(a as int, b as int);
    let mut w: Vec<char> = Vec::new();
    let mut i = a;
    while i < b
        invariant
            a <= i <= b <= v@.len(),
            w@ == v@.subrange(a as int, i as int),
        decreases b - i,
    {
        w.push(v[i]);
        assert(v@.subrange(a as int, i + 1) =~= v@.subrange(a as int, i as int).push(v@[i as int]));
        i += 1;
    }
    assert(w@ == name);
    assert(w@.take(w@.len() as int) =~= w@);
    match find_last_dot(&w, w.len()) {
        None => b,
        Some(d) => {
            if d == 0 {
                b
            } else {
                assert(name.take(d as int) =~= v@.subrange(a as int, a + d));
                a + d
            }
        },
    }
}

/// The stem of the path's file name (see [`stem_of_name`]).
pub fn file_stem(p: &str) -> (r: Option<String>)
    ensures
        match r {
            None => file_stem_of(p@) is None,
            Some(n) => file_stem_of(p@) == Some(n@),
        },
{
    let v = to_chars(p);
    match file_name_bounds(&v) {
        None => None,
        Some((a, b)) => {
            let e = stem_end(&v, a, b);
            Some(substring(&v, a, e))
        },
    }
}

/// The extension of the path's file name (see [`extension_of_name`]).
pub fn extension(p: &str) -> (r: Option<String>)
    ensures
        match r {
            None => extension_of(p@) is None,
            Some(n) => extension_of(p@) == Some(n@),
        },
{
    let v = to_chars(p);
    match file_name_bounds(&v) {
        None => None,
        Some((a, b)) => {
            let ghost name = v@.subrange(a as int, b as int);
            let e = stem_end(&v, a, b);
            proof {
                lemma_last_dot(name);
            }
            if e == b {
                proof {
                    // no dot past the first character, so no extension
                    let d = last_dot(name);
                    if d > 0 {
                        assert(name.take(d).len() < name.len());
                    }
                }
                None
            } else {
                let ghost d = last_dot(name);
                assert(e == a + d);
                assert(name.skip(d + 1) =~= v@.subrange(e + 1, b as int));
                Some(substring(&v, e + 1, b))
            }
        },
    }
}

/// `base` joined with the relative `name` (see [`join_of`]).
pub fn join(base: &str, name: &str) -> (r: String)
    ensures
        r@ == join_of(base@, name@),
{
    let b = to_chars(base);
    let n = to_chars(name);
    let mut out = b.clone();
    if b.len() > 0 && b[b.len() - 1] != '/' {
        out.push('/');
    }
    let mut i: usize = 0;
    let ghost prefix = out@;
    while i < n.len()
        invariant
            i <= n@.len(),
            out@ == prefix + n@.take(i as int),
        decreases n@.len() - i,
    {
        out.push(n[i]);
        assert(n@.take(i + 1) =~= n@.take(i as int).push(n@[i as int]));
        i += 1;
    }
    assert(n@.take(n@.len() as int) =~= n@);
    from_chars(&out)
}

} // verus!
