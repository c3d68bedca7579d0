//! Paths as text: names, ancestors, and the save-file extension.
//!
//! A path is read as a run of names held apart by separators. Both `/` and
//! `\` separate, on every platform. Empty names (doubled or trailing
//! separators) do not count. A drive prefix such as `C:` is a name like any
//! other, and names are compared exactly, character by character.

use vstd::prelude::*;
use vstd::string::*;

verus! {

/// Whether a character separates the names of a path.
pub open spec fn is_separator(c: char) -> bool {
    c == '/' || c == '\\'
}

/// The longest suffix of the text that holds no separator.
pub open spec fn last_name(s: Seq<char>) -> Seq<char>
    decreases s.len(),
{
    if s.len() == 0 || is_separator(s.last()) {
        Seq::empty()
    } else {
        last_name(s.drop_last()).push(s.last())
    }
}

/// The text without the separators at its end.
pub open spec fn strip_trailing(s: Seq<char>) -> Seq<char>
    decreases s.len(),
{
    if s.len() == 0 || !is_separator(s.last()) {
        s
    } else {
        strip_trailing(s.drop_last())
    }
}

/// The last name of a path: its file name. Empty when the path holds no name.
pub open spec fn name_of(s: Seq<char>) -> Seq<char> {
    last_name(strip_trailing(s))
}

/// The last name of a text is a suffix of it, and it is empty only where the
/// text is empty or ends in a separator.
pub proof fn lemma_last_name_bounds(s: Seq<char>)
    ensures
        last_name(s).len() <= s.len(),
        last_name(s).len() == 0 <==> (s.len() == 0 || is_separator(s.last())),
        last_name(s) == s.subrange(s.len() - last_name(s).len(), s.len() as int),
        forall|i: int| 0 <= i < last_name(s).len() ==> !is_separator(#[trigger] last_name(s)[i]),
    decreases s.len(),
{
    if s.len() == 0 || is_separator(s.last()) {
        assert(last_name(s) =~= s.subrange(s.len() as int, s.len() as int));
    } else {
        let init = s.drop_last();
        lemma_last_name_bounds(init);
        assert(last_name(s) =~= s.subrange(s.len() - last_name(s).len(), s.len() as int));
    }
}

/// The names of a path, first to last.
pub open spec fn components(s: Seq<char>) -> Seq<Seq<char>>
    decreases s.len(),
{
    if s.len() == 0 {
        Seq::empty()
    } else if is_separator(s.last()) {
        components(s.drop_last())
    } else {
        proof {
            lemma_last_name_bounds(s);
        }
        components(s.take(s.len() - last_name(s).len())).push(last_name(s))
    }
}

/// The file name of a path is the last of its names, and a path has a file
/// name exactly when it has any name.
pub proof fn lemma_name_is_last_component(s: Seq<char>)
    ensures
        name_of(s).len() == 0 <==> components(s).len() == 0,
        components(s).len() > 0 ==> components(s).last() == name_of(s),
    decreases s.len(),
{
    if s.len() > 0 {
        if is_separator(s.last()) {
            lemma_name_is_last_component(s.drop_last());
        } else {
            lemma_last_name_bounds(s);
        }
    }
}

/// What precedes the file name of a path: its parent folder, written with
/// the separators that follow it. `None` where the path has no file name.
pub open spec fn parent_of(s: Seq<char>) -> Option<Seq<char>> {
    let t = strip_trailing(s);
    if last_name(t).len() == 0 {
        None
    } else {
        Some(t.take(t.len() - last_name(t).len()))
    }
}

/// Whether two paths name the same place: each is an ancestor of the other.
pub open spec fn same_path(a: Seq<char>, b: Seq<char>) -> bool {
    ancestor_of(a, b) && ancestor_of(b, a)
}

/// Whether a path starts at the root, that is with a separator.
pub open spec fn is_rooted(s: Seq<char>) -> bool {
    s.len() > 0 && is_separator(s[0])
}

/// Whether `base` is `path` itself or one of its ancestors: both start at the
/// root or neither does, and the names of `base` are the first names of
/// `path`.
pub open spec fn ancestor_of(base: Seq<char>, path: Seq<char>) -> bool {
    &&& is_rooted(base) == is_rooted(path)
    &&& components(base).is_prefix_of(components(path))
}

/// Whether `c` is the given letter in either case.
pub open spec fn is_letter(c: char, lower: char, upper: char) -> bool {
    c == lower || c == upper
}

/// Whether a file name carries the save-file extension: it ends in `.dat`, in
/// any mix of upper and lower case, after at least one other character.
pub open spec fn has_save_extension(name: Seq<char>) -> bool {
    &&& name.len() >= 5
    &&& name[name.len() - 4] == '.'
    &&& is_letter(name[name.len() - 3], 'd', 'D')
    &&& is_letter(name[name.len() - 2], 'a', 'A')
    &&& is_letter(name[name.len() - 1], 't', 'T')
}

/// Whether a path names a save file.
pub open spec fn is_save_path(s: Seq<char>) -> bool {
    has_save_extension(name_of(s))
}

/// A path with one more name at its end. A separator is put between the two
/// unless `base` is empty or already ends in one.
pub open spec fn joined(base: Seq<char>, name: Seq<char>) -> Seq<char> {
    if base.len() == 0 || is_separator(base.last()) {
        base + name
    } else {
        base + seq!['/'] + name
    }
}

/// The texts that a list of character vectors holds.
pub open spec fn names(v: Seq<Vec<char>>) -> Seq<Seq<char>> {
    Seq::new(v.len(), |i: int| v[i]@)
}

/// The characters of a string, one by one.
pub fn chars_of(s: &str) -> (r: Vec<char>)
    ensures
        r@ == s@,
{
    let mut out: Vec<char> = Vec::new();
    for c in it: s.chars()
        invariant
            out@ == it.seq().take(it.index() as int),
            it.seq() == s@,
    {
        out.push(c);
    }
    out
}

fn separates(c: char) -> (r: bool)
    ensures
        r == is_separator(c),
{
    c == '/' || c == '\\'
}

/// Where the last name of a path starts and ends.
fn name_span(chars: &Vec<char>) -> (r: (usize, usize))
    ensures
        r.0 <= r.1 <= chars@.len(),
        name_of(chars@) == chars@.subrange(r.0 as int, r.1 as int),
        strip_trailing(chars@) == chars@.take(r.1 as int),
{
    let ghost s = chars@;
    let mut end: usize = chars.len();
    assert(s.take(end as int) == s);
    while end > 0 && separates(chars[end - 1])
        invariant
            end <= chars@.len(),
            s == chars@,
            strip_trailing(s) == strip_trailing(s.take(end as int)),
        decreases end,
    {
        assert(s.take(end as int).drop_last() == s.take(end as int - 1));
        end = end - 1;
    }
    let ghost t = s.take(end as int);
    assert(strip_trailing(s) == t);
    let mut start: usize = end;
    assert(t.take(start as int) == t);
    assert(last_name(t) + t.subrange(start as int, end as int) == last_name(t));
    while start > 0 && !separates(chars[start - 1])
        invariant
            start <= end <= chars@.len(),
            s == chars@,
            t == s.take(end as int),
            last_name(t) == last_name(t.take(start as int)) + t.subrange(start as int, end as int),
        decreases start,
    {
        assert(t.take(start as int).drop_last() == t.take(start as int - 1));
        assert(last_name(t.take(start as int - 1)).push(t[start as int - 1]) + t.subrange(
            start as int,
            end as int,
        ) == last_name(t.take(start as int - 1)) + t.subrange(start as int - 1, end as int));
        start = start - 1;
    }
    assert(last_name(t.take(start as int)) == Seq::<char>::empty());
    assert(last_name(t) == t.subrange(start as int, end as int));
    assert(t.subrange(start as int, end as int) == s.subrange(start as int, end as int));
    (start, end)
}

/// The file name of a path: its last name. `None` when the path holds no
/// name at all, as the empty path and `/` do.
pub fn file_name(path: &str) -> (r: Option<&str>)
    ensures
        match r {
            Some(name) => name@ == name_of(path@) && name@.len() > 0,
            None => name_of(path@).len() == 0,
        },
{
    let chars = chars_of(path);
    let (start, end) = name_span(&chars);
    if start == end {
        None
    } else {
        Some(path.substring_char(start, end))
    }
}

/// The parent folder of a path: what precedes its file name. `None` when the
/// path has no file name.
pub fn parent(path: &str) -> (r: Option<&str>)
    ensures
        match r {
            Some(p) => parent_of(path@) == Some(p@),
            None => parent_of(path@) is None,
        },
{
    let chars = chars_of(path);
    let (start, end) = name_span(&chars);
    if start == end {
        None
    } else {
        proof {
            let t = strip_trailing(path@);
            assert(t.take(t.len() - last_name(t).len()) == path@.subrange(0, start as int));
        }
        Some(path.substring_char(0, start))
    }
}

/// Whether a path names a save file, by its extension.
pub fn is_save_file(path: &str) -> (r: bool)
    ensures
        r == is_save_path(path@),
{
    let chars = chars_of(path);
    let (start, end) = name_span(&chars);
    if end - start < 5 {
        return false;
    }
    let dot = chars[end - 4];
    let d = chars[end - 3];
    let a = chars[end - 2];
    let t = chars[end - 1];
    dot == '.' && (d == 'd' || d == 'D') && (a == 'a' || a == 'A') && (t == 't' || t == 'T')
}

/// Splits a path into its names.
pub fn split_components(path: &str) -> (r: Vec<Vec<char>>)
    ensures
        names(r@) == components(path@),
{
    let chars = chars_of(path);
    let ghost s = chars@;
    let mut done: Vec<Vec<char>> = Vec::new();
    let mut current: Vec<char> = Vec::new();
    let mut i: usize = 0;
    while i < chars.len()
        invariant
            i <= chars@.len(),
            s == chars@,
            current@ == last_name(s.take(i as int)),
            current@.len() <= i,
            names(done@) == components(s.take(i - current@.len())),
        decreases chars@.len() - i,
    {
        let c = chars[i];
        proof {
            lemma_last_name_bounds(s.take(i as int));
            assert(s.take(i as int + 1).drop_last() == s.take(i as int));
            assert(s.take(i as int).take(i - current@.len()) == s.take(i - current@.len()));
        }
        if separates(c) {
            assert(components(s.take(i as int + 1)) == components(s.take(i as int)));
            if current.len() > 0 {
                let ghost before = done@;
                assert(components(s.take(i as int)) == components(
                    s.take(i - current@.len()),
                ).push(current@));
                done.push(current);
                assert(names(done@) == names(before).push(current@));
                current = Vec::new();
            }
        } else {
            current.push(c);
        }
        i = i + 1;
    }
    proof {
        lemma_last_name_bounds(s);
        assert(s.take(i as int) == s);
    }
    if current.len() > 0 {
        let ghost before = done@;
        done.push(current);
        assert(names(done@) == names(before).push(current@));
    }
    done
}

fn same_chars(a: &Vec<char>, b: &Vec<char>) -> (r: bool)
    ensures
        r == (a@ == b@),
{
    if a.len() != b.len() {
        return false;
    }
    let mut i: usize = 0;
    while i < a.len()
        invariant
            i <= a@.len(),
            a@.len() == b@.len(),
            a@.take(i as int) == b@.take(i as int),
        decreases a@.len() - i,
    {
        if a[i] != b[i] {
            return false;
        }
        assert(a@.take(i as int + 1) == a@.take(i as int).push(a@[i as int]));
        assert(b@.take(i as int + 1) == b@.take(i as int).push(b@[i as int]));
        i = i + 1;
    }
    assert(a@.take(i as int) == a@);
    assert(b@.take(i as int) == b@);
    true
}

fn leads(base: &Vec<Vec<char>>, path: &Vec<Vec<char>>) -> (r: bool)
    ensures
        r == names(base@).is_prefix_of(names(path@)),
{
    if base.len() > path.len() {
        return false;
    }
    let mut i: usize = 0;
    while i < base.len()
        invariant
            i <= base@.len() <= path@.len(),
            forall|k: int| 0 <= k < i ==> base@[k]@ == path@[k]@,
        decreases base@.len() - i,
    {
        if !same_chars(&base[i], &path[i]) {
            assert(names(base@)[i as int] != names(path@).subrange(0, base@.len() as int)[i as int]);
            return false;
        }
        i = i + 1;
    }
    assert(names(base@) =~= names(path@).subrange(0, names(base@).len() as int));
    true
}

fn starts_at_root(path: &str) -> (r: bool)
    ensures
        r == is_rooted(path@),
{
    path.unicode_len() > 0 && separates(path.get_char(0))
}

/// Whether `base` is `path` itself or one of its ancestors.
pub fn is_ancestor(base: &str, path: &str) -> (r: bool)
    ensures
        r == ancestor_of(base@, path@),
{
    if starts_at_root(base) != starts_at_root(path) {
        return false;
    }
    let base_names = split_components(base);
    let path_names = split_components(path);
    leads(&base_names, &path_names)
}

/// Whether two paths name the same place.
pub fn is_same_path(a: &str, b: &str) -> (r: bool)
    ensures
        r == same_path(a@, b@),
{
    is_ancestor(a, b) && is_ancestor(b, a)
}

/// Appends a name to a path.
pub fn join(base: &str, name: &str) -> (r: String)
    ensures
        r@ == joined(base@, name@),
{
    let chars = chars_of(base);
    let mut out = String::from_str(base);
    if chars.len() > 0 && !separates(chars[chars.len() - 1]) {
        proof {
            reveal_strlit("/");
            assert("/"@ == seq!['/']);
        }
        out.append("/");
    }
    out.append(name);
    out
}

} // verus!
