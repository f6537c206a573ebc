//! Which embedded asset a request path names.
use vstd::prelude::*;

use crate::text::{chars_of, matches_at, occurs_at, push_char};

verus! {

/// `s` without the leading `c` characters.
pub open spec fn strip_leading(s: Seq<char>, c: char) -> Seq<char>
    decreases s.len(),
{
    if s.len() > 0 && s[0] == c {
        strip_leading(s.drop_first(), c)
    } else {
        s
    }
}

/// `s` with every occurrence of `pat` removed, matches taken from the left
/// without overlap (`str::replace(pat, "")`).
pub open spec fn remove_all(s: Seq<char>, pat: Seq<char>) -> Seq<char>
    decreases s.len(),
{
    if s.len() == 0 {
        s
    } else if pat.len() > 0 && occurs_at(s, pat, 0) {
        remove_all(s.skip(pat.len() as int), pat)
    } else {
        seq![s[0]] + remove_all(s.drop_first(), pat)
    }
}

/// The prefix that marks a path into the build output.
pub open spec fn dist_prefix() -> Seq<char> {
    seq!['d', 'i', 's', 't', '/']
}

/// The asset a request path names: the path without its leading slashes
/// and, when it then starts with `dist/`, without any `dist/` in it.
pub open spec fn asset_path_of(path: Seq<char>) -> Seq<char> {
    let p = strip_leading(path, '/');
    if occurs_at(p, dist_prefix(), 0) {
        remove_all(p, dist_prefix())
    } else {
        p
    }
}

proof fn lemma_strip_leading_at(s: Seq<char>, c: char, i: int)
    requires
        0 <= i <= s.len(),
        forall|k: int| 0 <= k < i ==> #[trigger] s[k] == c,
        i == s.len() || s[i] != c,
    ensures
        strip_leading(s, c) == s.skip(i),
    decreases i,
{
    if i == 0 {
        assert(s.skip(0) =~= s);
    } else {
        let t = s.drop_first();
        assert forall|k: int| 0 <= k < i - 1 implies #[trigger] t[k] == c by {
            assert(t[k] == s[k + 1]);
        }
        lemma_strip_leading_at(t, c, i - 1);
        assert(t.skip(i - 1) =~= s.skip(i));
    }
}

/// Removes every `dist/` from `v[from..]`.
fn remove_dist(v: &Vec<char>, from: usize) -> (r: String)
    requires
        from <= v.len(),
    ensures
        r@ == remove_all(v@.skip(from as int), dist_prefix()),
{
    let mut pat: Vec<char> = Vec::new();
    pat.push('d');
    pat.push('i');
    pat.push('s');
    pat.push('t');
    pat.push('/');
    assert(pat@ =~= dist_prefix());
    let mut r = String::new();
    let mut i = from;
    while i < v.len()
        invariant
            from <= i <= v.len(),
            pat@ == dist_prefix(),
            r@ + remove_all(v@.skip(i as int), dist_prefix()) == remove_all(
                v@.skip(from as int),
                dist_prefix(),
            ),
        decreases v.len() - i,
    {
        let ghost rest = v@.skip(i as int);
        if v.len() - i >= 5 && matches_at(v, &pat, i) {
            assert(v@.subrange(i as int, i + 5) =~= rest.subrange(0, 5));
            assert(occurs_at(rest, dist_prefix(), 0));
            assert(rest.skip(5) =~= v@.skip(i + 5));
            i = i + 5;
        } else {
            if v.len() - i >= 5 {
                assert(v@.subrange(i as int, i + 5) =~= rest.subrange(0, 5));
            }
            assert(!occurs_at(rest, dist_prefix(), 0));
            assert(rest.drop_first() =~= v@.skip(i + 1));
            assert(rest[0] == v@[i as int]);
            push_char(&mut r, v[i]);
            assert(r@ + remove_all(v@.skip(i + 1), dist_prefix()) =~= (r@.drop_last() + seq![
                v@[i as int],
            ]) + remove_all(v@.skip(i + 1), dist_prefix()));
            i = i + 1;
        }
    }
    assert(remove_all(v@.skip(i as int), dist_prefix()) == Seq::<char>::empty());
    assert(r@ + Seq::<char>::empty() =~= r@);
    r
}

/// The embedded asset that request path `path` names.
pub fn asset_path(path: &str) -> (r: String)
    ensures
        r@ == asset_path_of(path@),
{
    let v = chars_of(path);
    let mut i: usize = 0;
    while i < v.len() && v[i] == '/'
        invariant
            v@ == path@,
            0 <= i <= v.len(),
            forall|k: int| 0 <= k < i ==> #[trigger] v@[k] == '/',
        decreases v.len() - i,
    {
        i = i + 1;
    }
    proof {
        lemma_strip_leading_at(path@, '/', i as int);
    }
    let ghost p = path@.skip(i as int);
    let mut pat: Vec<char> = Vec::new();
    pat.push('d');
    pat.push('i');
    pat.push('s');
    pat.push('t');
    pat.push('/');
    assert(pat@ =~= dist_prefix());
    let starts = v.len() - i >= 5 && matches_at(&v, &pat, i);
    if v.len() - i >= 5 {
        assert(v@.subrange(i as int, i + 5) =~= p.subrange(0, 5));
    }
    assert(starts == occurs_at(p, dist_prefix(), 0));
    if starts {
        remove_dist(&v, i)
    } else {
        crate::text::string_from_chars(&v, i, v.len())
    }
}

/// The path every unknown request is answered with.
pub fn index_path() -> (r: String)
    ensures
        r@ == "index.html"@,
{
    crate::text::owned("index.html")
}

} // verus!
