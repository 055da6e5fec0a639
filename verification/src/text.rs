//! Character-level helpers on request paths and literals.
use vstd::prelude::*;

verus! {

/// `path` lies at `prefix` or below it: it starts with `prefix`, and what
/// follows is either nothing or a new segment that begins with `/`.
pub open spec fn lies_within(path: Seq<char>, prefix: Seq<char>) -> bool {
    &&& prefix.len() <= path.len()
    &&& path.subrange(0, prefix.len() as int) == prefix
    &&& (path.len() == prefix.len() || path[prefix.len() as int] == '/')
}

/// The characters of `s`, in order.
pub fn chars_of(s: &str) -> (out: Vec<char>)
    ensures
        out@ == s@,
{
    let mut out: Vec<char> = Vec::new();
    for c in it: s.chars()
        invariant
            out@ == it.seq().take(it.index() as int),
    {
        out.push(c);
    }
    out
}

/// Whether two character sequences are equal.
pub fn same_chars(a: &Vec<char>, b: &Vec<char>) -> (r: bool)
    ensures
        r == (a@ == b@),
{
    if a.len() != b.len() {
        return false;
    }
    let mut i: usize = 0;
    while i < a.len()
        invariant
            a@.len() == b@.len(),
            i <= a@.len(),
            forall|j: int| 0 <= j < i ==> a@[j] == b@[j],
        decreases a@.len() - i,
    {
        if a[i] != b[i] {
            return false;
        }
        i = i + 1;
    }
    assert(a@ =~= b@);
    true
}

/// Whether `path` lies at `prefix` or below it, in the sense of [`lies_within`].
pub fn is_within(path: &Vec<char>, prefix: &Vec<char>) -> (r: bool)
    ensures
        r == lies_within(path@, prefix@),
{
    if prefix.len() > path.len() {
        return false;
    }
    let mut i: usize = 0;
    while i < prefix.len()
        invariant
            prefix@.len() <= path@.len(),
            i <= prefix@.len(),
            forall|j: int| 0 <= j < i ==> path@[j] == prefix@[j],
        decreases prefix@.len() - i,
    {
        if path[i] != prefix[i] {
            assert(path@.subrange(0, prefix@.len() as int)[i as int] != prefix@[i as int]);
            return false;
        }
        i = i + 1;
    }
    assert(path@.subrange(0, prefix@.len() as int) =~= prefix@);
    path.len() == prefix.len() || path[prefix.len()] == '/'
}

} // verus!
