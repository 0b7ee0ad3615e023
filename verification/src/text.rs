use vstd::prelude::*;

verus! {

/// `prefix` is an initial segment of `s`.
pub open spec fn starts_with(s: Seq<char>, prefix: Seq<char>) -> bool {
    prefix.len() <= s.len() && s.subrange(0, prefix.len() as int) == prefix
}

/// `suffix` is a final segment of `s`.
pub open spec fn ends_with(s: Seq<char>, suffix: Seq<char>) -> bool {
    suffix.len() <= s.len() && s.subrange(s.len() - suffix.len(), s.len() as int) == suffix
}

/// The characters of a string, one by one.
pub fn characters(s: &str) -> (list: Vec<char>)
    ensures
        list@ == s@,
{
    let mut list: Vec<char> = Vec::new();
    for c in it: s.chars()
        invariant
            it.seq() == s@,
            list@ == s@.take(it.index() as int),
    {
        list.push(c);
    }
    assert(s@.take(s@.len() as int) =~= s@);
    list
}

/// Tells whether the characters of `s` from `offset` on begin with those of `pattern`.
pub fn matches_at(s: &Vec<char>, offset: usize, pattern: &Vec<char>) -> (b: bool)
    requires
        offset + pattern.len() <= s.len(),
    ensures
        b == (s@.subrange(offset as int, offset + pattern.len()) == pattern@),
{
    let mut i: usize = 0;
    while i < pattern.len()
        invariant
            i <= pattern.len(),
            offset + pattern.len() <= s.len(),
            forall|j: int| 0 <= j < i ==> s[offset + j] == pattern[j],
        decreases pattern.len() - i,
    {
        if s[offset + i] != pattern[i] {
            assert(s@.subrange(offset as int, offset + pattern.len())[i as int]
                != pattern[i as int]);
            return false;
        }
        i += 1;
    }
    assert(s@.subrange(offset as int, offset + pattern.len()) =~= pattern@);
    true
}

/// Tells whether `s` begins with `prefix`.
pub fn has_prefix(s: &str, prefix: &str) -> (b: bool)
    ensures
        b == starts_with(s@, prefix@),
{
    let s = characters(s);
    let prefix = characters(prefix);
    if prefix.len() > s.len() {
        return false;
    }
    matches_at(&s, 0, &prefix)
}

/// Tells whether `s` ends with `suffix`.
pub fn has_suffix(s: &str, suffix: &str) -> (b: bool)
    ensures
        b == ends_with(s@, suffix@),
{
    let s = characters(s);
    let suffix = characters(suffix);
    if suffix.len() > s.len() {
        return false;
    }
    matches_at(&s, s.len() - suffix.len(), &suffix)
}

/// Tells whether two strings hold the same characters.
pub fn same_text(a: &str, b: &str) -> (r: bool)
    ensures
        r == (a@ == b@),
{
    let a = characters(a);
    let b = characters(b);
    if a.len() != b.len() {
        return false;
    }
    let r = matches_at(&a, 0, &b);
    assert(a@.subrange(0, a.len() as int) =~= a@);
    r
}

/// The characters of `a` followed by those of `b`, as a new string.
pub fn joined(a: &str, b: &str) -> (r: String)
    ensures
        r@ == a@ + b@,
{
    let mut r = a.to_owned();
    r.append(b);
    r
}

} // verus!
