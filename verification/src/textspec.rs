//! Character-level path and text predicates, with executable checks.
//!
//! Paths are modelled as character sequences whose components are
//! separated by `'/'`. The predicates here are what entry-point
//! validation, archive-entry screening and database-path normalisation
//! are specified against.

use vstd::prelude::*;

verus! {

broadcast use vstd::string::group_string_axioms;

/// The whitespace characters that count when a name is trimmed: the
/// Unicode White_Space code points, the set that `str::trim` strips.
pub open spec fn is_space_char(c: char) -> bool {
    ||| (0x0009 <= c as u32 && c as u32 <= 0x000D)
    ||| c == ' '
    ||| c as u32 == 0x0085
    ||| c as u32 == 0x00A0
    ||| c as u32 == 0x1680
    ||| (0x2000 <= c as u32 && c as u32 <= 0x200A)
    ||| c as u32 == 0x2028
    ||| c as u32 == 0x2029
    ||| c as u32 == 0x202F
    ||| c as u32 == 0x205F
    ||| c as u32 == 0x3000
}

/// Whether `c` is one of the whitespace characters of [`is_space_char`].
pub fn char_is_space(c: char) -> (r: bool)
    ensures
        r == is_space_char(c),
{
    let code = c as u32;
    (0x0009 <= code && code <= 0x000D) || c == ' ' || code == 0x0085 || code == 0x00A0 || code
        == 0x1680 || (0x2000 <= code && code <= 0x200A) || code == 0x2028 || code == 0x2029
        || code == 0x202F || code == 0x205F || code == 0x3000
}

/// The sequence holds no visible character at all (the empty sequence is
/// blank).
pub open spec fn is_blank(s: Seq<char>) -> bool {
    forall|i: int| 0 <= i < s.len() ==> is_space_char(#[trigger] s[i])
}

/// No leading or trailing whitespace.
pub open spec fn is_trimmed(s: Seq<char>) -> bool {
    s.len() == 0 || (!is_space_char(s[0]) && !is_space_char(s[s.len() - 1]))
}

/// A rooted path: one that starts at the filesystem root.
pub open spec fn is_absolute_path(s: Seq<char>) -> bool {
    s.len() > 0 && s[0] == '/'
}

/// A `".."` path component starts at position `i`: it is preceded by a
/// separator or the start of the path, and followed by a separator or the
/// end of the path.
pub open spec fn parent_component_at(s: Seq<char>, i: int) -> bool {
    &&& 0 <= i
    &&& i + 2 <= s.len()
    &&& (i == 0 || s[i - 1] == '/')
    &&& s[i] == '.'
    &&& s[i + 1] == '.'
    &&& (i + 2 == s.len() || s[i + 2] == '/')
}

/// Some component of the path is `".."`.
pub open spec fn has_parent_component(s: Seq<char>) -> bool {
    exists|i: int| parent_component_at(s, i)
}

/// An entry point is accepted when it is not blank, not rooted, and
/// climbs to no parent directory.
pub open spec fn valid_entry_point(s: Seq<char>) -> bool {
    !is_blank(s) && !is_absolute_path(s) && !has_parent_component(s)
}

/// An archive entry name that may be joined under a target directory:
/// non-empty, not rooted, no `".."` component, and no backslash (which
/// some platforms would read as a separator).
pub open spec fn safe_archive_path(s: Seq<char>) -> bool {
    &&& s.len() > 0
    &&& !is_absolute_path(s)
    &&& !has_parent_component(s)
    &&& !s.contains('\\')
}

/// `a` and `b` joined by a single separator.
pub open spec fn join_path(a: Seq<char>, b: Seq<char>) -> Seq<char> {
    a.push('/') + b
}

/// `p` names a location at or under the directory `root`: `root` is a
/// prefix of `p` and ends exactly on a component boundary.
pub open spec fn path_starts_with(p: Seq<char>, root: Seq<char>) -> bool {
    root.is_prefix_of(p) && (p.len() == root.len() || p[root.len() as int] == '/')
}

/// Whether every character of `s` is whitespace.
pub fn str_is_blank(s: &str) -> (r: bool)
    ensures
        r == is_blank(s@),
{
    let n = s.unicode_len();
    let mut i: usize = 0;
    while i < n
        invariant
            i <= n,
            n == s@.len(),
            forall|j: int| 0 <= j < i ==> is_space_char(#[trigger] s@[j]),
        decreases n - i,
    {
        if !char_is_space(s.get_char(i)) {
            assert(!is_space_char(s@[i as int]));
            return false;
        }
        i += 1;
    }
    true
}

/// Whether `s` carries no leading or trailing whitespace.
pub fn str_is_trimmed(s: &str) -> (r: bool)
    ensures
        r == is_trimmed(s@),
{
    let n = s.unicode_len();
    if n == 0 {
        return true;
    }
    !char_is_space(s.get_char(0)) && !char_is_space(s.get_char(n - 1))
}

/// Whether `s` starts with the separator.
pub fn str_is_absolute(s: &str) -> (r: bool)
    ensures
        r == is_absolute_path(s@),
{
    let n = s.unicode_len();
    n > 0 && s.get_char(0) == '/'
}

/// Whether some component of `s` is `".."`.
pub fn str_has_parent_component(s: &str) -> (r: bool)
    ensures
        r == has_parent_component(s@),
{
    let n = s.unicode_len();
    let mut i: usize = 0;
    while i < n
        invariant
            i <= n,
            n == s@.len(),
            forall|j: int| 0 <= j < i ==> !parent_component_at(s@, j),
        decreases n - i,
    {
        if i + 1 < n && s.get_char(i) == '.' && s.get_char(i + 1) == '.' && (i + 2 == n
            || s.get_char(i + 2) == '/') && (i == 0 || s.get_char(i - 1) == '/') {
            assert(parent_component_at(s@, i as int));
            return true;
        }
        assert(!parent_component_at(s@, i as int));
        i += 1;
    }
    // Positions in range were screened by the loop; outside the range
    // the definition cannot hold.
    assert forall|j: int| !parent_component_at(s@, j) by {
        if 0 <= j < n {
        }
    }
    false
}

/// Whether `s` holds the character `c`.
pub fn str_has_char(s: &str, c: char) -> (r: bool)
    ensures
        r == s@.contains(c),
{
    let n = s.unicode_len();
    let mut i: usize = 0;
    while i < n
        invariant
            i <= n,
            n == s@.len(),
            forall|j: int| 0 <= j < i ==> s@[j] != c,
        decreases n - i,
    {
        if s.get_char(i) == c {
            return true;
        }
        i += 1;
    }
    false
}

/// Whether `p` is a prefix of `s`.
pub fn str_has_prefix(s: &str, p: &str) -> (r: bool)
    ensures
        r == p@.is_prefix_of(s@),
{
    let np = p.unicode_len();
    let ns = s.unicode_len();
    if np > ns {
        return false;
    }
    let mut i: usize = 0;
    while i < np
        invariant
            i <= np,
            np == p@.len(),
            ns == s@.len(),
            np <= ns,
            forall|j: int| 0 <= j < i ==> s@[j] == p@[j],
        decreases np - i,
    {
        if s.get_char(i) != p.get_char(i) {
            assert(!p@.is_prefix_of(s@)) by {
                if p@.is_prefix_of(s@) {
                    assert(s@.subrange(0, np as int)[i as int] == s@[i as int]);
                }
            }
            return false;
        }
        i += 1;
    }
    assert(s@.subrange(0, np as int) =~= p@);
    true
}

/// Whether `p` names a location at or under the directory `root`.
pub fn str_path_starts_with(p: &str, root: &str) -> (r: bool)
    ensures
        r == path_starts_with(p@, root@),
{
    if !str_has_prefix(p, root) {
        return false;
    }
    let np = p.unicode_len();
    let nr = root.unicode_len();
    np == nr || p.get_char(nr) == '/'
}

/// Whether `a` and `b` hold the same characters.
pub fn str_eq(a: &str, b: &str) -> (r: bool)
    ensures
        r == (a@ == b@),
{
    let na = a.unicode_len();
    let nb = b.unicode_len();
    if na != nb {
        return false;
    }
    let mut i: usize = 0;
    while i < na
        invariant
            i <= na,
            na == a@.len(),
            nb == b@.len(),
            na == nb,
            forall|j: int| 0 <= j < i ==> a@[j] == b@[j],
        decreases na - i,
    {
        if a.get_char(i) != b.get_char(i) {
            return false;
        }
        i += 1;
    }
    assert(a@ =~= b@);
    true
}

/// `base` and `rel` joined by a single separator.
pub fn join_path_exec(base: &str, rel: &str) -> (r: String)
    ensures
        r@ == join_path(base@, rel@),
{
    let mut s = String::from_str(base);
    s.append("/");
    s.append(rel);
    proof {
        reveal_strlit("/");
        assert(s@ =~= join_path(base@, rel@));
    }
    s
}

/// Joining distinct names under one directory gives distinct paths.
pub proof fn lemma_join_path_injective(a: Seq<char>, x: Seq<char>, y: Seq<char>)
    requires
        x != y,
    ensures
        join_path(a, x) != join_path(a, y),
{
    if join_path(a, x) == join_path(a, y) {
        assert(join_path(a, x).len() == a.len() + 1 + x.len());
        assert(join_path(a, y).len() == a.len() + 1 + y.len());
        assert(x.len() == y.len());
        assert forall|i: int| 0 <= i < x.len() implies x[i] == y[i] by {
            assert(join_path(a, x)[a.len() + 1 + i] == x[i]);
            assert(join_path(a, y)[a.len() + 1 + i] == y[i]);
        }
        assert(x =~= y);
    }
}

/// A joined path always lies under the directory it was joined to.
pub proof fn lemma_join_path_under(base: Seq<char>, rel: Seq<char>)
    ensures
        path_starts_with(join_path(base, rel), base),
{
    assert(join_path(base, rel).subrange(0, base.len() as int) =~= base);
    assert(join_path(base, rel)[base.len() as int] == '/');
}

} // verus!
