//! Pure string-level path queries: trailing component, extension, parent,
//! absolute/relative tests, and splitting text into lines.
//!
//! Paths are Unix-style strings with `'/'` as the separator, read as the
//! host reads them: separator runs and `"."` components at the end of a
//! path say nothing about its final component, and a final `".."` is a
//! step upward, a component with no name of its own. Each executable query
//! is proved against a small recursive specification over the path's
//! character sequence.

use vstd::prelude::*;

verus! {

/// The longest suffix of `s` holding no occurrence of `sep`: everything after
/// the last separator, or all of `s` when no separator occurs.
pub open spec fn after_last(s: Seq<char>, sep: char) -> Seq<char>
    decreases s.len(),
{
    if s.len() == 0 {
        s
    } else if s.last() == sep {
        Seq::<char>::empty()
    } else {
        after_last(s.drop_last(), sep).push(s.last())
    }
}

/// The end of `s` normalized: trailing separator runs and trailing `"."`
/// components are dropped, as the host drops them when it names a path's
/// final component. A trailing `".."` stays: it is a real component.
pub open spec fn normalize_end(s: Seq<char>) -> Seq<char>
    decreases s.len(),
{
    if s.len() == 0 {
        s
    } else if s.last() == '/' {
        normalize_end(s.drop_last())
    } else if s.last() == '.' && (s.len() == 1 || s[s.len() - 2] == '/') {
        normalize_end(s.drop_last())
    } else {
        s
    }
}

/// The index `e` with `s@.subrange(0, e)` equal to `normalize_end(s@)`.
fn normalize_end_index(s: &str) -> (e: usize)
    ensures
        e <= s@.len(),
        normalize_end(s@) == s@.subrange(0, e as int),
{
    let n: usize = s.unicode_len();
    let mut e: usize = n;
    proof {
        assert(s@.subrange(0, n as int) =~= s@);
    }
    while e > 0 && (s.get_char(e - 1) == '/' || (s.get_char(e - 1) == '.' && (e == 1
        || s.get_char(e - 2) == '/')))
        invariant
            e <= n,
            n == s@.len(),
            normalize_end(s@) == normalize_end(s@.subrange(0, e as int)),
        decreases e,
    {
        proof {
            let p = s@.subrange(0, e as int);
            assert(p.last() == s@[e - 1]);
            if e > 1 {
                assert(p[p.len() - 2] == s@[e - 2]);
            }
            assert(p.drop_last() =~= s@.subrange(0, e - 1));
        }
        e = e - 1;
    }
    proof {
        let p = s@.subrange(0, e as int);
        if p.len() > 0 {
            assert(p.last() == s@[e - 1]);
            if p.len() > 1 {
                assert(p[p.len() - 2] == s@[e - 2]);
            }
        }
    }
    e
}

/// The trailing path component of `s`: the chunk after the last `'/'` once
/// the end is normalized. Empty when nothing remains — an empty or
/// all-separator path — and empty for a final `".."`, which names nothing.
pub open spec fn filename_of(s: Seq<char>) -> Seq<char> {
    let c = after_last(normalize_end(s), '/');
    if c == seq!['.', '.'] {
        Seq::<char>::empty()
    } else {
        c
    }
}

/// Where the characters from `k` on hold no `sep`, and `k` is either the start
/// of `s` or just past a `sep`, the suffix from `k` is exactly `after_last`.
proof fn lemma_after_last_at(s: Seq<char>, sep: char, k: int)
    requires
        0 <= k <= s.len(),
        forall|j: int| k <= j < s.len() ==> s[j] != sep,
        k == 0 || s[k - 1] == sep,
    ensures
        after_last(s, sep) == s.subrange(k, s.len() as int),
    decreases s.len(),
{
    if s.len() == k {
        if k == 0 {
            assert(after_last(s, sep) =~= s.subrange(0, 0));
        } else {
            assert(s.last() == sep);
            assert(after_last(s, sep) =~= s.subrange(k, s.len() as int));
        }
    } else {
        assert(s.last() != sep);
        lemma_after_last_at(s.drop_last(), sep, k);
        assert(s.drop_last().subrange(k, s.len() - 1) =~= s.subrange(k, s.len() - 1));
        assert(s.subrange(k, s.len() - 1).push(s.last()) =~= s.subrange(k, s.len() as int));
    }
}

/// The trailing path component as a string:
/// `filename_str("/a/b/c.txt") == "c.txt"`, `filename_str("a/b/") == "b"`,
/// and `""` when there is none, as for `"/"` or `".."`.
pub fn filename_str(s: &str) -> (r: String)
    ensures
        r@ == filename_of(s@),
{
    let e = normalize_end_index(s);
    let mut i: usize = e;
    while i > 0 && s.get_char(i - 1) != '/'
        invariant
            i <= e,
            e <= s@.len(),
            forall|j: int| i <= j < e ==> s@[j] != '/',
        decreases i,
    {
        i = i - 1;
    }
    let ghost t = normalize_end(s@);
    proof {
        assert(forall|j: int| i <= j < t.len() ==> t[j] != '/');
        lemma_after_last_at(t, '/', i as int);
        assert(t.subrange(i as int, e as int) =~= s@.subrange(i as int, e as int));
    }
    if e - i == 2 && s.get_char(i) == '.' && s.get_char(i + 1) == '.' {
        proof {
            assert(t.subrange(i as int, e as int) =~= seq!['.', '.']);
        }
        String::new()
    } else {
        proof {
            let c = t.subrange(i as int, e as int);
            if c == seq!['.', '.'] {
                assert(c[0] == s@[i as int]);
                assert(c[1] == s@[i + 1]);
                assert(false);
            }
        }
        s.substring_char(i, e).to_owned()
    }
}

/// The extension of `s`: the part of the trailing component after its last
/// `'.'`. Empty when the component holds no dot, or only a leading one (a
/// hidden file such as `".profile"` has no extension).
pub open spec fn extension_of(s: Seq<char>) -> Seq<char> {
    let f = filename_of(s);
    if exists|i: int| 1 <= i < f.len() && f[i] == '.' {
        after_last(f, '.')
    } else {
        Seq::<char>::empty()
    }
}

/// The extension, as a string: `extension_str("/a/b/c.txt") == "txt"`,
/// `extension_str("/a/b/c") == ""`.
pub fn extension_str(s: &str) -> (r: String)
    ensures
        r@ == extension_of(s@),
{
    let f = filename_str(s);
    let fs = f.as_str();
    let n: usize = fs.unicode_len();
    let mut i: usize = n;
    while i > 1 && fs.get_char(i - 1) != '.'
        invariant
            i <= n,
            n == fs@.len(),
            forall|j: int| i <= j < n ==> fs@[j] != '.',
        decreases i,
    {
        i = i - 1;
    }
    if i <= 1 {
        String::new()
    } else {
        proof {
            lemma_after_last_at(fs@, '.', i as int);
        }
        fs.substring_char(i, n).to_owned()
    }
}

/// `s` with every trailing `sep` removed.
pub open spec fn strip_trailing(s: Seq<char>, sep: char) -> Seq<char>
    decreases s.len(),
{
    if s.len() > 0 && s.last() == sep {
        strip_trailing(s.drop_last(), sep)
    } else {
        s
    }
}

/// Where the characters from `e` on are all `sep`, and `e` is either the
/// start of `s` or just past a non-`sep`, the prefix up to `e` is exactly
/// `strip_trailing`.
proof fn lemma_strip_trailing_at(s: Seq<char>, sep: char, e: int)
    requires
        0 <= e <= s.len(),
        forall|j: int| e <= j < s.len() ==> s[j] == sep,
        e == 0 || s[e - 1] != sep,
    ensures
        strip_trailing(s, sep) == s.subrange(0, e),
    decreases s.len(),
{
    if s.len() == e {
        assert(strip_trailing(s, sep) =~= s.subrange(0, e));
    } else {
        assert(s.last() == sep);
        lemma_strip_trailing_at(s.drop_last(), sep, e);
        assert(s.drop_last().subrange(0, e) =~= s.subrange(0, e));
    }
}

/// The parent of `s`: `s` without its final component — the end normalized
/// first, so trailing separators and `"."` components are ignored, while a
/// final `".."` is itself the component removed. Absent only when there is
/// no component to remove: an empty path, or a root (separators alone, with
/// or without `"."` components). The empty parent stands for the current
/// directory, whether above a bare relative name or left by removing a
/// lone `"."`, and `"/"` for the root above a top-level entry.
pub open spec fn parent_of(s: Seq<char>) -> Option<Seq<char>> {
    let t = normalize_end(s);
    if t.len() == 0 {
        if s.len() > 0 && s[0] != '/' {
            // Only "." components and separators, starting with a "."
            // component: the "." is itself the component removed, and the
            // empty parent remains, as the host reads a bare ".".
            Some(Seq::<char>::empty())
        } else {
            // Empty, or a root: nothing to remove a component from.
            None::<Seq<char>>
        }
    } else {
        let f = after_last(t, '/');
        if f.len() == t.len() {
            Some(Seq::<char>::empty())
        } else {
            let u = strip_trailing(t.subrange(0, t.len() - f.len()), '/');
            if u.len() == 0 {
                Some(seq!['/'])
            } else {
                Some(u)
            }
        }
    }
}

/// The parent as a string: `parent_str("/a/b/c.txt") == Some("/a/b")`,
/// `parent_str("/a/.") == Some("/")`, `parent_str(".") == Some("")`,
/// `parent_str("/") == None`.
pub fn parent_str(s: &str) -> (r: Option<String>)
    ensures
        r is Some <==> parent_of(s@) is Some,
        r matches Some(q) ==> parent_of(s@) == Some(q@),
{
    let e = normalize_end_index(s);
    if e == 0 {
        if s.unicode_len() > 0 && s.get_char(0) != '/' {
            return Some(String::new());
        }
        return None;
    }
    // Find the last separator before the final component.
    let mut i: usize = e;
    while i > 0 && s.get_char(i - 1) != '/'
        invariant
            i <= e,
            e <= s@.len(),
            forall|j: int| i <= j < e ==> s@[j] != '/',
        decreases i,
    {
        i = i - 1;
    }
    let ghost t = normalize_end(s@);
    proof {
        assert(forall|j: int| i <= j < t.len() ==> t[j] != '/');
        assert(i == 0 || t[i - 1] == '/');
        lemma_after_last_at(t, '/', i as int);
    }
    if i == 0 {
        // No separator at all: the whole normalized path is its own component.
        proof {
            assert(after_last(t, '/') =~= t);
        }
        let r = String::new();
        return Some(r);
    }
    proof {
        assert(after_last(t, '/') =~= t.subrange(i as int, t.len() as int));
        assert(after_last(t, '/').len() < t.len());
        assert(t.subrange(0, t.len() - after_last(t, '/').len()) =~= s@.subrange(0, i as int));
    }
    // Drop the separators just before the component.
    let mut e2: usize = i;
    while e2 > 0 && s.get_char(e2 - 1) == '/'
        invariant
            e2 <= i,
            i <= s@.len(),
            forall|j: int| e2 <= j < i ==> s@[j] == '/',
        decreases e2,
    {
        e2 = e2 - 1;
    }
    proof {
        assert(s@.subrange(0, i as int).subrange(0, e2 as int) =~= s@.subrange(0, e2 as int));
        lemma_strip_trailing_at(s@.subrange(0, i as int), '/', e2 as int);
    }
    if e2 == 0 {
        // Separators only before the component: the parent is the root.
        let r = String::from_str("/");
        proof {
            reveal_strlit("/");
            assert(r@ =~= seq!['/']);
        }
        Some(r)
    } else {
        Some(s.substring_char(0, e2).to_owned())
    }
}

/// `l` without one trailing carriage return, as the end of a line read from
/// a file with CRLF endings.
pub open spec fn strip_cr(l: Seq<char>) -> Seq<char> {
    if l.len() > 0 && l.last() == '\r' {
        l.drop_last()
    } else {
        l
    }
}

/// The lines of `cur + s`, where `cur` is an unfinished line: each `'\n'`
/// ends a line (a `'\r'` just before it is dropped), and a nonempty final
/// fragment is a line of its own.
pub open spec fn lines_from(s: Seq<char>, cur: Seq<char>) -> Seq<Seq<char>>
    decreases s.len(),
{
    if s.len() == 0 {
        if cur.len() == 0 {
            Seq::<Seq<char>>::empty()
        } else {
            seq![cur]
        }
    } else if s.first() == '\n' {
        seq![strip_cr(cur)] + lines_from(s.drop_first(), Seq::<char>::empty())
    } else {
        lines_from(s.drop_first(), cur.push(s.first()))
    }
}

/// The lines of `s`, line terminators stripped: `lines_of("x\ny\n")` is
/// `["x", "y"]`, and a final fragment without a terminator still counts.
pub open spec fn lines_of(s: Seq<char>) -> Seq<Seq<char>> {
    lines_from(s, Seq::<char>::empty())
}

/// Split `s` into its lines, dropping each terminating `'\n'` or `"\r\n"`.
pub fn split_lines(s: &str) -> (r: Vec<String>)
    ensures
        r@.map_values(|l: String| l@) == lines_of(s@),
{
    let n: usize = s.unicode_len();
    let mut out: Vec<String> = Vec::new();
    let mut start: usize = 0;
    let mut i: usize = 0;
    proof {
        assert(s@.subrange(0, n as int) =~= s@);
        assert(s@.subrange(0, 0) =~= Seq::<char>::empty());
        assert(out@.map_values(|l: String| l@) + lines_from(s@, Seq::<char>::empty())
            =~= lines_from(s@, Seq::<char>::empty()));
    }
    while i < n
        invariant
            start <= i <= n,
            n == s@.len(),
            lines_of(s@) == out@.map_values(|l: String| l@) + lines_from(
                s@.subrange(i as int, n as int),
                s@.subrange(start as int, i as int),
            ),
        decreases n - i,
    {
        let ghost rest = s@.subrange(i as int, n as int);
        let ghost cur = s@.subrange(start as int, i as int);
        let c = s.get_char(i);
        if c == '\n' {
            let mut end: usize = i;
            if end > start && s.get_char(end - 1) == '\r' {
                end = end - 1;
                proof {
                    assert(cur.drop_last() =~= s@.subrange(start as int, end as int));
                }
            }
            proof {
                assert(strip_cr(cur) =~= s@.subrange(start as int, end as int));
            }
            let line = s.substring_char(start, end).to_owned();
            proof {
                assert(rest.first() == '\n');
                assert(rest.drop_first() =~= s@.subrange(i + 1, n as int));
                assert(s@.subrange(i + 1, i + 1) =~= Seq::<char>::empty());
                assert(out@.push(line).map_values(|l: String| l@) =~= out@.map_values(
                    |l: String| l@,
                ).push(line@));
            }
            out.push(line);
            start = i + 1;
            i = i + 1;
        } else {
            proof {
                assert(rest.first() == s@[i as int]);
                assert(rest.drop_first() =~= s@.subrange(i + 1, n as int));
                assert(cur.push(s@[i as int]) =~= s@.subrange(start as int, i + 1));
            }
            i = i + 1;
        }
    }
    if start < n {
        let line = s.substring_char(start, n as usize).to_owned();
        proof {
            assert(s@.subrange(i as int, n as int).len() == 0);
            assert(out@.push(line).map_values(|l: String| l@) =~= out@.map_values(
                |l: String| l@,
            ).push(line@));
        }
        out.push(line);
    } else {
        proof {
            assert(s@.subrange(start as int, i as int).len() == 0);
            assert(out@.map_values(|l: String| l@) + Seq::<Seq<char>>::empty() =~= out@.map_values(
                |l: String| l@,
            ));
        }
    }
    out
}

/// An absolute path begins with the separator.
pub open spec fn is_absolute_path(s: Seq<char>) -> bool {
    s.len() > 0 && s[0] == '/'
}

/// Whether `s` is absolute: whether it begins with `'/'`.
pub fn is_absolute_str(s: &str) -> (r: bool)
    ensures
        r == is_absolute_path(s@),
{
    if s.unicode_len() == 0 {
        false
    } else {
        s.get_char(0) == '/'
    }
}

/// Whether `s` is relative: not absolute.
pub fn is_relative_str(s: &str) -> (r: bool)
    ensures
        r == !is_absolute_path(s@),
{
    !is_absolute_str(s)
}

} // verus!
