use vstd::prelude::*;

use vstd::string::{StrSliceExecFns, StringExecFns};

verus! {

/// `s` without the slashes at its end.
pub open spec fn trim_end_slashes(s: Seq<char>) -> Seq<char>
    decreases s.len(),
{
    if s.len() > 0 && s.last() == '/' {
        trim_end_slashes(s.drop_last())
    } else {
        s
    }
}

/// `s` without the slashes at its start.
pub open spec fn trim_start_slashes(s: Seq<char>) -> Seq<char>
    decreases s.len(),
{
    if s.len() > 0 && s[0] == '/' {
        trim_start_slashes(s.subrange(1, s.len() as int))
    } else {
        s
    }
}

/// The address an HTTP sink posts to: the host alone, or host and path
/// joined by exactly one slash.
pub open spec fn url_of(host: Seq<char>, path: Option<Seq<char>>) -> Seq<char> {
    match path {
        None => host,
        Some(p) => trim_end_slashes(host) + seq!['/'] + trim_start_slashes(p),
    }
}

proof fn lemma_trim_end_clean(s: Seq<char>)
    ensures
        trim_end_slashes(s).len() == 0 || trim_end_slashes(s).last() != '/',
    decreases s.len(),
{
    if s.len() > 0 && s.last() == '/' {
        lemma_trim_end_clean(s.drop_last());
    }
}

proof fn lemma_trim_start_clean(s: Seq<char>)
    ensures
        trim_start_slashes(s).len() == 0 || trim_start_slashes(s)[0] != '/',
    decreases s.len(),
{
    if s.len() > 0 && s[0] == '/' {
        lemma_trim_start_clean(s.subrange(1, s.len() as int));
    }
}

/// However host and path are written, the address holds the host without
/// its trailing slashes, exactly one slash, then the path without its
/// leading slashes: no slash stands on either side of the separator.
pub proof fn lemma_one_separating_slash(host: Seq<char>, path: Seq<char>)
    ensures
        ({
            let h = trim_end_slashes(host);
            let p = trim_start_slashes(path);
            let u = url_of(host, Some(path));
            &&& u == h + seq!['/'] + p
            &&& u[h.len() as int] == '/'
            &&& h.len() == 0 || u[h.len() - 1] != '/'
            &&& p.len() == 0 || u[h.len() + 1int] != '/'
        }),
{
    lemma_trim_end_clean(host);
    lemma_trim_start_clean(path);
}

/// The text of an optional path.
pub open spec fn path_view(path: Option<&str>) -> Option<Seq<char>> {
    match path {
        Some(p) => Some(p@),
        None => None,
    }
}

/// The length of `s` once its trailing slashes are gone.
fn end_without_slashes(s: &str) -> (e: usize)
    ensures
        e <= s@.len(),
        trim_end_slashes(s@) == s@.subrange(0, e as int),
{
    let mut e: usize = s.unicode_len();
    assert(s@.subrange(0, e as int) =~= s@);
    while e > 0 && s.get_char(e - 1) == '/'
        invariant
            e <= s@.len(),
            trim_end_slashes(s@) == trim_end_slashes(s@.subrange(0, e as int)),
        decreases e,
    {
        assert(s@.subrange(0, e as int).drop_last() =~= s@.subrange(0, e - 1));
        e = e - 1;
    }
    e
}

/// Where `s` starts once its leading slashes are gone.
fn start_without_slashes(s: &str) -> (b: usize)
    ensures
        b <= s@.len(),
        trim_start_slashes(s@) == s@.subrange(b as int, s@.len() as int),
{
    let n: usize = s.unicode_len();
    let mut b: usize = 0;
    assert(s@.subrange(0, n as int) =~= s@);
    while b < n && s.get_char(b) == '/'
        invariant
            n == s@.len(),
            b <= n,
            trim_start_slashes(s@) == trim_start_slashes(s@.subrange(b as int, n as int)),
        decreases n - b,
    {
        assert(s@.subrange(b as int, n as int).subrange(1, n - b) =~= s@.subrange(b + 1, n as int));
        b = b + 1;
    }
    b
}

/// Joins host and path with exactly one slash between them, however many
/// either side brought; without a path the host is the address.
pub fn resolve_url(host: &str, path: Option<&str>) -> (r: String)
    ensures
        r@ == url_of(host@, path_view(path)),
{
    match path {
        None => String::from_str(host),
        Some(p) => {
            let e: usize = end_without_slashes(host);
            let b: usize = start_without_slashes(p);
            let n: usize = p.unicode_len();
            let mut r = String::from_str(host.substring_char(0, e));
            proof {
                reveal_strlit("/");
            }
            r.append("/");
            r.append(p.substring_char(b, n));
            assert(r@ =~= url_of(host@, path_view(path)));
            r
        },
    }
}

} // verus!
