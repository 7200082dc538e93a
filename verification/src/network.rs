//! Addresses of the local server's endpoints.

use vstd::prelude::*;
use crate::text::{to_chars, from_chars};

verus! {

/// The address of the local server.
pub const SERVER_URL: &'static str = "http://localhost:8080";

/// `path` made absolute: a `/` is put in front unless it starts with one.
pub open spec fn absolute_path_of(path: Seq<char>) -> Seq<char> {
    if path.len() > 0 && path[0] == '/' { path } else { seq!['/'] + path }
}

/// The request target for `path` with the encoded query `query`: the
/// absolute path, then `?` and the query unless it is absent or empty.
pub open spec fn request_path_of(path: Seq<char>, query: Option<Seq<char>>) -> Seq<char> {
    match query {
        Some(q) => if q.len() > 0 { absolute_path_of(path) + seq!['?'] + q } else { absolute_path_of(path) },
        None => absolute_path_of(path),
    }
}

fn push_all(out: &mut Vec<char>, s: &Vec<char>)
    ensures
        final(out)@ == old(out)@ + s@,
{
    let mut i: usize = 0;
    let ghost start = out@;
    while i < s.len()
        invariant
            i <= s@.len(),
            out@ == start + s@.take(i as int),
        decreases s@.len() - i,
    {
        out.push(s[i]);
        assert(s@.take(i + 1) =~= s@.take(i as int).push(s@[i as int]));
        i += 1;
    }
    assert(s@.take(s@.len() as int) =~= s@);
}

/// Builds the request target for `path` and the encoded `query`.
pub fn request_path(path: &str, query: Option<&str>) -> (r: String)
    ensures
        r@ == request_path_of(path@, match query {
            Some(q) => Some(q@),
            None => None,
        }),
{
    let p = to_chars(path);
    let mut out: Vec<char> = Vec::new();
    if !(p.len() > 0 && p[0] == '/') {
        out.push('/');
    }
    push_all(&mut out, &p);
    assert(out@ == absolute_path_of(path@));
    if let Some(q) = query {
        let qv = to_chars(q);
        if qv.len() > 0 {
            out.push('?');
            push_all(&mut out, &qv);
        }
    }
    from_chars(&out)
}

/// The full address of the server endpoint `path`.
pub fn server_url(path: &str) -> (r: String)
    ensures
        r@ == SERVER_URL@ + seq!['/'] + path@,
{
    let mut v = to_chars(SERVER_URL);
    v.push('/');
    push_all(&mut v, &to_chars(path));
    from_chars(&v)
}

} // verus!
