//! Paths as text: components, the final name, and the ignore rule.
use vstd::prelude::*;

verus! {

/// `p[i..j]` is one whole component of `p`: bounded by separators or by the
/// ends of `p`, with no separator inside.
pub open spec fn is_component(p: Seq<char>, i: int, j: int) -> bool {
    &&& 0 <= i <= j <= p.len()
    &&& (i == 0 || p[i - 1] == '/')
    &&& (j == p.len() || p[j] == '/')
    &&& forall|k: int| i <= k < j ==> p[k] != '/'
}

/// A component that names an entry: not empty, not `.` and not `..`.
pub open spec fn is_normal_name(s: Seq<char>) -> bool {
    s.len() > 0 && s != seq!['.'] && s != seq!['.', '.']
}

/// `name` equals one of `names` exactly.
pub open spec fn names_contain(names: Seq<String>, name: Seq<char>) -> bool {
    exists|k: int| 0 <= k < names.len() && names[k]@ == name
}

/// Some named directory component of `p` (one followed by a separator)
/// equals one of `ignore` exactly; the final name of `p` is not tested.
pub open spec fn has_ignored_component(p: Seq<char>, ignore: Seq<String>) -> bool {
    exists|i: int, j: int|
        #![trigger p.subrange(i, j)]
        is_component(p, i, j) && j < p.len() && is_normal_name(p.subrange(i, j)) && names_contain(
            ignore,
            p.subrange(i, j),
        )
}

/// Index of the last separator in `p`, or -1 where there is none.
pub open spec fn last_sep(p: Seq<char>) -> int
    decreases p.len(),
{
    if p.len() == 0 {
        -1
    } else if p.last() == '/' {
        p.len() - 1
    } else {
        last_sep(p.drop_last())
    }
}

/// The final name of a path: trailing separators and `.` components are
/// passed over; there is none when nothing is left (`/`, `.`, ``) or when
/// the last component is `..`.
pub open spec fn file_name(p: Seq<char>) -> Option<Seq<char>>
    decreases p.len(),
{
    if p.len() == 0 {
        None
    } else if p.last() == '/' {
        file_name(p.drop_last())
    } else if p =~= seq!['.'] {
        None
    } else if p.len() >= 2 && p[p.len() - 1] == '.' && p[p.len() - 2] == '/' {
        file_name(p.subrange(0, p.len() - 2))
    } else {
        let tail = p.subrange(last_sep(p) + 1, p.len() as int);
        if tail =~= seq!['.', '.'] {
            None
        } else {
            Some(tail)
        }
    }
}

/// Whether `name` equals one of `names` exactly (no globbing, no prefixes).
pub fn contains_name(name: &str, names: &[String]) -> (r: bool)
    ensures
        r == names_contain(names@, name@),
{
    let owned = String::from_str(name);
    let mut k: usize = 0;
    while k < names.len()
        invariant
            k <= names@.len(),
            owned@ == name@,
            forall|m: int| 0 <= m < k ==> names@[m]@ != name@,
        decreases names@.len() - k,
    {
        if names[k] == owned {
            return true;
        }
        k = k + 1;
    }
    false
}

/// Whether a walk must not enter an entry: it is a directory whose bare
/// name, when it is text at all, equals one of `ignore_patterns`.
pub fn is_ignored(is_dir: bool, name: Option<&str>, ignore_patterns: &[String]) -> (r: bool)
    ensures
        r == (is_dir && name is Some && names_contain(ignore_patterns@, name->Some_0@)),
{
    if !is_dir {
        return false;
    }
    match name {
        Some(n) => contains_name(n, ignore_patterns),
        None => false,
    }
}

fn is_normal(s: &str) -> (r: bool)
    ensures
        r == is_normal_name(s@),
{
    let n = s.unicode_len();
    if n == 0 {
        false
    } else if n == 1 {
        let c = s.get_char(0);
        if c == '.' {
            assert(s@ =~= seq!['.']);
        }
        c != '.'
    } else if n == 2 {
        let c0 = s.get_char(0);
        let c1 = s.get_char(1);
        if c0 == '.' && c1 == '.' {
            assert(s@ =~= seq!['.', '.']);
        }
        !(c0 == '.' && c1 == '.')
    } else {
        assert(s@.len() != 1 && s@.len() != 2);
        assert(s@ != seq!['.']);
        assert(s@ != seq!['.', '.']);
        true
    }
}

/// Whether some named directory component of `path` is one of
/// `ignore_patterns`, compared exactly.
pub fn path_contains_ignored_dir(path: &str, ignore_patterns: &[String]) -> (r: bool)
    ensures
        r == has_ignored_component(path@, ignore_patterns@),
{
    let ghost p = path@;
    let n = path.unicode_len();
    let mut start: usize = 0;
    let mut i: usize = 0;
    while i < n
        invariant
            p == path@,
            n == p.len(),
            start <= i <= n,
            start == 0 || p[start - 1] == '/',
            forall|k: int| start <= k < i ==> p[k] != '/',
            forall|a: int, b: int|
                #![trigger p.subrange(a, b)]
                is_component(p, a, b) && b < start ==> !(is_normal_name(p.subrange(a, b))
                    && names_contain(ignore_patterns@, p.subrange(a, b))),
        decreases n - i,
    {
        if path.get_char(i) == '/' {
            if segment_is_ignored(path, start, i, ignore_patterns) {
                return true;
            }
            start = i + 1;
        }
        i = i + 1;
    }
    assert forall|a: int, b: int|
        #![trigger p.subrange(a, b)]
        is_component(p, a, b) && b < p.len() implies !(is_normal_name(p.subrange(a, b))
            && names_contain(ignore_patterns@, p.subrange(a, b))) by {
        if b >= start {
            assert(p[b] == '/');
        }
    }
    false
}

/// Checks the component `path[start..end]`, given that it is one and that
/// no earlier component is ignored; on `false`, no component up to `end` is.
fn segment_is_ignored(path: &str, start: usize, end: usize, ignore_patterns: &[String]) -> (r: bool)
    requires
        start <= end < path@.len(),
        start == 0 || path@[start - 1] == '/',
        path@[end as int] == '/',
        forall|k: int| start <= k < end ==> path@[k] != '/',
        forall|a: int, b: int|
            #![trigger path@.subrange(a, b)]
            is_component(path@, a, b) && b < start ==> !(is_normal_name(path@.subrange(a, b))
                && names_contain(ignore_patterns@, path@.subrange(a, b))),
    ensures
        r ==> has_ignored_component(path@, ignore_patterns@),
        !r ==> forall|a: int, b: int|
            #![trigger path@.subrange(a, b)]
            is_component(path@, a, b) && b < end + 1 ==> !(is_normal_name(path@.subrange(a, b))
                && names_contain(ignore_patterns@, path@.subrange(a, b))),
{
    let ghost p = path@;
    let seg = path.substring_char(start, end);
    if is_normal(seg) && contains_name(seg, ignore_patterns) {
        assert(is_component(p, start as int, end as int));
        assert(seg@ == p.subrange(start as int, end as int));
        return true;
    }
    assert forall|a: int, b: int|
        #![trigger p.subrange(a, b)]
        is_component(p, a, b) && b < end + 1 implies !(is_normal_name(p.subrange(a, b))
            && names_contain(ignore_patterns@, p.subrange(a, b))) by {
        if b == end {
            if a < start {
                assert(p[start - 1] == '/');
            } else if a > start {
                assert(p[a - 1] == '/');
            }
            assert(a == start);
        } else if b >= start {
            assert(p[b] == '/');
        }
    }
    false
}

/// The final name of `path`, as `file_name` describes it.
pub fn file_name_of(path: &str) -> (r: Option<String>)
    ensures
        r matches Some(name) ==> file_name(path@) == Some(name@),
        r is None ==> file_name(path@) is None,
{
    let ghost p = path@;
    let n = path.unicode_len();
    let mut end: usize = n;
    assert(p.subrange(0, n as int) =~= p);
    loop
        invariant
            p == path@,
            n == p.len(),
            end <= n,
            file_name(p) == file_name(p.subrange(0, end as int)),
        ensures
            end <= n,
            file_name(p) == file_name(p.subrange(0, end as int)),
            end > 0 ==> p[end - 1] != '/',
            end >= 2 ==> !(p[end - 1] == '.' && p[end - 2] == '/'),
        decreases end,
    {
        let ghost q = p.subrange(0, end as int);
        if end > 0 && path.get_char(end - 1) == '/' {
            assert(q.drop_last() =~= p.subrange(0, end - 1));
            end = end - 1;
        } else if end >= 2 && path.get_char(end - 1) == '.' && path.get_char(end - 2) == '/' {
            assert(q.subrange(0, q.len() - 2) =~= p.subrange(0, end - 2));
            end = end - 2;
        } else {
            break;
        }
    }
    last_name(path, end)
}

/// The final name of `path[..end]`, which ends neither in a separator nor
/// in a `.` component.
fn last_name(path: &str, end: usize) -> (r: Option<String>)
    requires
        end <= path@.len(),
        end > 0 ==> path@[end - 1] != '/',
        end >= 2 ==> !(path@[end - 1] == '.' && path@[end - 2] == '/'),
    ensures
        r matches Some(name) ==> file_name(path@.subrange(0, end as int)) == Some(name@),
        r is None ==> file_name(path@.subrange(0, end as int)) is None,
{
    let ghost p = path@;
    let ghost q = p.subrange(0, end as int);
    if end == 0 {
        return None;
    }
    if end == 1 && path.get_char(0) == '.' {
        assert(q =~= seq!['.']);
        return None;
    }
    assert(!(q =~= seq!['.']));
    let mut k: usize = end;
    while k > 0 && path.get_char(k - 1) != '/'
        invariant
            p == path@,
            k <= end <= p.len(),
            q == p.subrange(0, end as int),
            last_sep(q) == last_sep(p.subrange(0, k as int)),
        decreases k,
    {
        assert(p.subrange(0, k as int).drop_last() =~= p.subrange(0, k - 1));
        k = k - 1;
    }
    assert(last_sep(q) == k - 1);
    let tail = path.substring_char(k, end);
    assert(tail@ =~= q.subrange(last_sep(q) + 1, q.len() as int));
    if tail.unicode_len() == 2 && tail.get_char(0) == '.' && tail.get_char(1) == '.' {
        assert(tail@ =~= seq!['.', '.']);
        None
    } else {
        assert(!(tail@ =~= seq!['.', '.']));
        Some(String::from_str(tail))
    }
}

} // verus!
