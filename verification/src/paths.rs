//! Slash-separated path names as texts: parent components, the names that
//! the artifact route serves, and joining a name onto a directory.

use vstd::prelude::*;
use vstd::string::*;
use crate::text::{chars_of, concat2, concat3};

verus! {

/// Whether the two characters from `i` on are a `..` that fills a whole
/// component: bounded on each side by a slash or by an end of the text.
pub open spec fn dotdot_at(s: Seq<char>, i: int) -> bool {
    &&& 0 <= i
    &&& i + 2 <= s.len()
    &&& s[i] == '.'
    &&& s[i + 1] == '.'
    &&& (i == 0 || s[i - 1] == '/')
    &&& (i + 2 == s.len() || s[i + 2] == '/')
}

/// Whether some component of the path is `..`.
pub open spec fn has_dotdot(s: Seq<char>) -> bool {
    exists|i: int| dotdot_at(s, i)
}

/// The prefix under which artifacts are served.
pub open spec fn zips_prefix() -> Seq<char> {
    seq!['/', 'z', 'i', 'p', 's', '/']
}

/// A request path names an artifact when it begins with `/zips/` and no
/// component of it is `..`.
pub open spec fn acceptable_path(s: Seq<char>) -> bool {
    zips_prefix().is_prefix_of(s) && !has_dotdot(s)
}

/// `s` without the slashes it begins with.
pub open spec fn strip_slashes(s: Seq<char>) -> Seq<char>
    decreases s.len(),
{
    if s.len() > 0 && s[0] == '/' {
        strip_slashes(s.skip(1))
    } else {
        s
    }
}

/// The artifact name inside an acceptable request path: what follows
/// `/zips/`, made relative.
pub open spec fn served_name(path: Seq<char>) -> Seq<char> {
    strip_slashes(path.skip(6))
}

/// `rel` resolved against the directory `base`: an absolute `rel` stands for
/// itself, otherwise it goes below `base`, with one slash between them unless
/// `base` is empty or already ends in one.
pub open spec fn joined_path(base: Seq<char>, rel: Seq<char>) -> Seq<char> {
    if rel.len() > 0 && rel[0] == '/' {
        rel
    } else if base.len() == 0 || base.last() == '/' {
        base + rel
    } else {
        base + seq!['/'] + rel
    }
}

fn dotdot_in(v: &Vec<char>) -> (r: bool)
    ensures
        r == has_dotdot(v@),
{
    let n = v.len();
    if n < 2 {
        return false;
    }
    let mut i: usize = 0;
    while i <= n - 2
        invariant
            n == v.len(),
            2 <= n,
            i + 1 <= n,
            forall|k: int| 0 <= k < i ==> !dotdot_at(v@, k),
        decreases n - i,
    {
        let starts = i == 0 || v[i - 1] == '/';
        let ends = i + 2 == n || v[i + 2] == '/';
        if v[i] == '.' && v[i + 1] == '.' && starts && ends {
            assert(dotdot_at(v@, i as int));
            return true;
        }
        i = i + 1;
    }
    false
}

/// Whether some component of the path `p` is `..`.
pub fn contains_dotdot(p: &str) -> (r: bool)
    ensures
        r == has_dotdot(p@),
{
    let v = chars_of(p);
    dotdot_in(&v)
}

fn under_zips(v: &Vec<char>) -> (r: bool)
    ensures
        r == zips_prefix().is_prefix_of(v@),
{
    if v.len() < 6 {
        return false;
    }
    let r = v[0] == '/' && v[1] == 'z' && v[2] == 'i' && v[3] == 'p' && v[4] == 's' && v[5]
        == '/';
    r
}

/// Whether a request path names an artifact: it begins with `/zips/` and
/// does not try to leave that hierarchy.
pub fn is_acceptable_path_name(path: &str) -> (r: bool)
    ensures
        r == acceptable_path(path@),
{
    let v = chars_of(path);
    under_zips(&v) && !dotdot_in(&v)
}

/// The name to look up in the artifact directory for a request path, if the
/// path is acceptable.
pub fn zip_name(path: &str) -> (r: Option<String>)
    ensures
        r is Some <==> acceptable_path(path@),
        r is Some ==> r->0@ == served_name(path@),
{
    let v = chars_of(path);
    if !under_zips(&v) || dotdot_in(&v) {
        return None;
    }
    let n = v.len();
    let mut k: usize = 6;
    while k < n && v[k] == '/'
        invariant
            6 <= k <= n,
            n == v.len(),
            strip_slashes(v@.skip(6)) == strip_slashes(v@.skip(k as int)),
        decreases n - k,
    {
        assert(v@.skip(k as int).skip(1) =~= v@.skip(k + 1));
        k = k + 1;
    }
    let name = path.substring_char(k, n);
    Some(name.to_owned())
}

/// Resolves `rel` against the directory `base`.
pub fn join_path(base: &str, rel: &str) -> (r: String)
    ensures
        r@ == joined_path(base@, rel@),
{
    let b = chars_of(base);
    let t = chars_of(rel);
    if t.len() > 0 && t[0] == '/' {
        rel.to_owned()
    } else if b.len() == 0 || b[b.len() - 1] == '/' {
        concat2(base, rel)
    } else {
        proof {
            reveal_strlit("/");
        }
        let r = concat3(base, "/", rel);
        r
    }
}

/// A component that is `..` in a text that starts right after a slash of a
/// longer one is a component of the longer one too.
proof fn lemma_dotdot_in_tail(s: Seq<char>, k: int)
    requires
        0 < k <= s.len(),
        s[k - 1] == '/',
        has_dotdot(s.skip(k)),
    ensures
        has_dotdot(s),
{
    let i = choose|i: int| dotdot_at(s.skip(k), i);
    assert(dotdot_at(s, i + k));
}

proof fn lemma_strip_slashes(s: Seq<char>, k: int)
    requires
        0 < k <= s.len(),
        s[k - 1] == '/',
    ensures
        ({
            let t = strip_slashes(s.skip(k));
            &&& t.len() > 0 ==> t[0] != '/'
            &&& has_dotdot(t) ==> has_dotdot(s)
        }),
    decreases s.len() - k,
{
    let u = s.skip(k);
    if u.len() > 0 && u[0] == '/' {
        assert(u.skip(1) =~= s.skip(k + 1));
        lemma_strip_slashes(s, k + 1);
    } else {
        if has_dotdot(u) {
            lemma_dotdot_in_tail(s, k);
        }
    }
}

/// Path safety of the artifact route. A path with a `..` component is never
/// acceptable, and the name served for an acceptable path is relative and
/// free of `..` components.
pub proof fn served_name_is_confined(path: Seq<char>)
    ensures
        has_dotdot(path) ==> !acceptable_path(path),
        acceptable_path(path) ==> !has_dotdot(served_name(path)),
        acceptable_path(path) ==> (served_name(path).len() == 0 || served_name(path)[0] != '/'),
{
    if acceptable_path(path) {
        lemma_strip_slashes(path, 6);
    }
}

/// A relative name joined onto a directory lies below that directory.
pub proof fn joined_path_stays_below(base: Seq<char>, rel: Seq<char>)
    requires
        rel.len() == 0 || rel[0] != '/',
    ensures
        base.is_prefix_of(joined_path(base, rel)),
        rel.len() <= joined_path(base, rel).len(),
        joined_path(base, rel).skip(joined_path(base, rel).len() - rel.len()) == rel,
{
}

} // verus!
