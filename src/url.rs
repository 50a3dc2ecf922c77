use vstd::prelude::*;
use vstd::string::*;

verus! {

/// The scheme prefixes a target may already carry.
pub open spec fn has_prefix(s: Seq<char>, p: Seq<char>) -> bool {
    p.len() <= s.len() && s.subrange(0, p.len() as int) == p
}

/// A target carries a scheme when it starts with `http://` or `https://`.
pub open spec fn has_scheme(s: Seq<char>) -> bool {
    has_prefix(s, "http://"@) || has_prefix(s, "https://"@)
}

/// The request URL for a target: the target itself when it carries a scheme,
/// else the target behind `https://`.
pub open spec fn normalized(s: Seq<char>) -> Seq<char> {
    if has_scheme(s) {
        s
    } else {
        "https://"@ + s
    }
}

/// Whether `s` starts with `p`, compared character by character.
pub fn starts_with(s: &str, p: &str) -> (r: bool)
    ensures
        r == has_prefix(s@, p@),
{
    let n = s.unicode_len();
    let m = p.unicode_len();
    if m > n {
        return false;
    }
    let mut i: usize = 0;
    while i < m
        invariant
            m == p@.len(),
            n == s@.len(),
            m <= n,
            i <= m,
            forall|j: int| 0 <= j < i ==> s@[j] == p@[j],
        decreases m - i,
    {
        if s.get_char(i) != p.get_char(i) {
            assert(s@.subrange(0, m as int)[i as int] != p@[i as int]);
            return false;
        }
        i = i + 1;
    }
    assert(s@.subrange(0, m as int) =~= p@);
    true
}

/// Puts `https://` in front of a target that names no scheme of its own.
pub fn check_proto(url: &String) -> (r: String)
    ensures
        r@ == normalized(url@),
        has_scheme(url@) ==> r@ == url@,
        !has_scheme(url@) ==> r@ == "https://"@ + url@,
{
    let s = url.as_str();
    if !starts_with(s, "http://") && !starts_with(s, "https://") {
        String::from_str("https://").concat(s)
    } else {
        String::from_str(s)
    }
}

} // verus!
