use vstd::prelude::*;

verus! {

/// Whether `path` already names a full URL, by its `http://` or `https://`
/// scheme.
pub open spec fn has_scheme(path: Seq<char>) -> bool {
    "http://"@.is_prefix_of(path) || "https://"@.is_prefix_of(path)
}

/// `s` without the `/` characters at its end.
pub open spec fn trim_end_slashes(s: Seq<char>) -> Seq<char>
    decreases s.len(),
{
    if s.len() > 0 && s.last() == '/' {
        trim_end_slashes(s.drop_last())
    } else {
        s
    }
}

/// The URL that `path` denotes against `base`: `path` itself where it has a
/// scheme, else `base` without trailing separators followed by `path`.
pub open spec fn resolved_url(base: Seq<char>, path: Seq<char>) -> Seq<char> {
    if has_scheme(path) {
        path
    } else {
        trim_end_slashes(base) + path
    }
}

/// Whether `s` begins with `prefix`.
pub fn starts_with(s: &str, prefix: &str) -> (r: bool)
    ensures
        r == prefix@.is_prefix_of(s@),
{
    let n = prefix.unicode_len();
    if n > s.unicode_len() {
        return false;
    }
    let mut i: usize = 0;
    while i < n
        invariant
            n == prefix@.len(),
            n <= s@.len(),
            0 <= i <= n,
            forall|j: int| 0 <= j < i ==> s@[j] == prefix@[j],
        decreases n - i,
    {
        if s.get_char(i) != prefix.get_char(i) {
            assert(s@.subrange(0, n as int)[i as int] != prefix@[i as int]);
            return false;
        }
        i = i + 1;
    }
    assert(prefix@ =~= s@.subrange(0, n as int));
    true
}

/// Joins `base` and `path` as `resolved_url` says.
pub fn resolve_url(base: &str, path: &str) -> (r: String)
    ensures
        r@ == resolved_url(base@, path@),
{
    if starts_with(path, "http://") || starts_with(path, "https://") {
        return path.to_owned();
    }
    let mut n = base.unicode_len();
    assert(base@.subrange(0, n as int) =~= base@);
    while n > 0 && base.get_char(n - 1) == '/'
        invariant
            n <= base@.len(),
            trim_end_slashes(base@.subrange(0, n as int)) == trim_end_slashes(base@),
        decreases n,
    {
        assert(base@.subrange(0, n as int).drop_last() =~= base@.subrange(0, n - 1));
        n = n - 1;
    }
    let kept = base.substring_char(0, n);
    let mut r = kept.to_owned();
    r.append(path);
    r
}

} // verus!
