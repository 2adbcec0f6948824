use vstd::prelude::*;

verus! {

// Template paths are written with `/` as the separator, whatever the host.

/// A path is absolute when it starts at the root separator.
pub open spec fn is_absolute_path(p: Seq<char>) -> bool {
    p.len() > 0 && p[0] == '/'
}

/// A `..` component sits at position `i`: two dots bounded by separators or
/// by the ends of the path.
pub open spec fn is_parent_at(p: Seq<char>, i: int) -> bool {
    &&& 0 <= i
    &&& i + 2 <= p.len()
    &&& p[i] == '.'
    &&& p[i + 1] == '.'
    &&& (i == 0 || p[i - 1] == '/')
    &&& (i + 2 == p.len() || p[i + 2] == '/')
}

pub open spec fn has_parent_component(p: Seq<char>) -> bool {
    exists|i: int| is_parent_at(p, i)
}

/// A path that stays below the directory it is joined to.
pub open spec fn path_is_safe(p: Seq<char>) -> bool {
    !is_absolute_path(p) && !has_parent_component(p)
}

/// Whether `s` is absolute.
pub fn is_absolute(s: &str) -> (r: bool)
    ensures
        r == is_absolute_path(s@),
{
    let n = s.unicode_len();
    n > 0 && s.get_char(0) == '/'
}

/// Whether `s` holds a `..` component.
pub fn contains_parent_component(s: &str) -> (r: bool)
    ensures
        r == has_parent_component(s@),
{
    let n = s.unicode_len();
    let mut i: usize = 0;
    while i < n
        invariant
            n == s@.len(),
            i <= n,
            forall|k: int| 0 <= k < i ==> !#[trigger] is_parent_at(s@, k),
        decreases n - i,
    {
        if i + 1 < n && s.get_char(i) == '.' && s.get_char(i + 1) == '.' && (i == 0 || s.get_char(i - 1)
            == '/') && (i + 2 == n || s.get_char(i + 2) == '/') {
            assert(is_parent_at(s@, i as int));
            return true;
        }
        i += 1;
    }
    assert forall|k: int| !#[trigger] is_parent_at(s@, k) by {
        if 0 <= k < i {
        }
    }
    false
}

/// Whether `a` and `b` hold the same characters.
pub fn same_text(a: &str, b: &str) -> (r: bool)
    ensures
        r == (a@ == b@),
{
    let n = a.unicode_len();
    if n != b.unicode_len() {
        return false;
    }
    let mut i: usize = 0;
    while i < n
        invariant
            n == a@.len(),
            n == b@.len(),
            i <= n,
            a@.take(i as int) =~= b@.take(i as int),
        decreases n - i,
    {
        if a.get_char(i) != b.get_char(i) {
            return false;
        }
        assert(a@.take(i + 1) =~= a@.take(i as int).push(a@[i as int]));
        assert(b@.take(i + 1) =~= b@.take(i as int).push(b@[i as int]));
        i += 1;
    }
    assert(a@ =~= a@.take(n as int));
    assert(b@ =~= b@.take(n as int));
    true
}

/// Whether `s` is relative and free of `..` components.
pub fn is_safe_path(s: &str) -> (r: bool)
    ensures
        r == path_is_safe(s@),
{
    !is_absolute(s) && !contains_parent_component(s)
}

} // verus!
