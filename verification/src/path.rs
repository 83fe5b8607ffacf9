//! Paths of the file system, as texts with `/` between their components.

use crate::text::chars_of;
use vstd::prelude::*;
use vstd::string::*;

verus! {

/// A path that starts at the root.
pub open spec fn is_absolute(path: Seq<char>) -> bool {
    path.len() > 0 && path[0] == '/'
}

/// The path `path`, seen from the directory `base`.
pub open spec fn joined_path(base: Seq<char>, path: Seq<char>) -> Seq<char> {
    if is_absolute(path) {
        path
    } else if base.len() == 0 || base.last() == '/' {
        base + path
    } else {
        base.push('/') + path
    }
}

/// The path without what follows its last component: separators, and `.` as a component. The first
/// character stays.
pub open spec fn tidied(path: Seq<char>) -> Seq<char>
    decreases path.len(),
{
    if path.len() >= 2 && (path.last() == '/' || (path.last() == '.' && path[path.len() - 2]
        == '/')) {
        tidied(path.drop_last())
    } else {
        path
    }
}

/// The path up to its last separator, which is kept.
pub open spec fn up_to_separator(path: Seq<char>) -> Seq<char>
    decreases path.len(),
{
    if path.len() == 0 || path.last() == '/' {
        path
    } else {
        up_to_separator(path.drop_last())
    }
}

/// The directory that a path lies in: the path without its last component. The empty path and the
/// root lie in none.
pub open spec fn directory_of(path: Seq<char>) -> Option<Seq<char>> {
    let path = tidied(path);
    if path.len() == 0 || (path.len() == 1 && path[0] == '/') {
        None
    } else {
        Some(tidied(up_to_separator(path)))
    }
}

/// The text of an optional string.
pub open spec fn optional_text(text: Option<String>) -> Option<Seq<char>> {
    match text {
        Some(s) => Some(s@),
        None => None,
    }
}

/// The text is one component of a path: it is not empty, holds no `/` and is not `.`.
pub open spec fn is_component(text: Seq<char>) -> bool {
    text.len() > 0 && !text.contains('/') && !(text.len() == 1 && text[0] == '.')
}

/// The path `path`, seen from the directory `base`.
pub fn join_path(base: &str, path: &str) -> (r: String)
    ensures
        r@ == joined_path(base@, path@),
{
    if !path.is_empty() && path.get_char(0) == '/' {
        path.to_string()
    } else {
        let mut r = base.to_string();
        if !base.is_empty() && base.get_char(base.unicode_len() - 1) != '/' {
            r.push('/');
        }
        r.append(path);
        r
    }
}

/// How many of the first `n` characters are left when they are tidied as a path.
fn tidied_len(chars: &Vec<char>, n: usize) -> (r: usize)
    requires
        n <= chars@.len(),
    ensures
        r <= n,
        chars@.take(r as int) == tidied(chars@.take(n as int)),
{
    let mut r: usize = n;
    while r >= 2 && (chars[r - 1] == '/' || (chars[r - 1] == '.' && chars[r - 2] == '/'))
        invariant
            r <= n <= chars@.len(),
            tidied(chars@.take(r as int)) == tidied(chars@.take(n as int)),
        decreases r,
    {
        assert(chars@.take(r as int).drop_last() =~= chars@.take(r - 1));
        r = r - 1;
    }
    r
}

/// The directory that a path lies in, where there is one.
pub fn directory(path: &str) -> (r: Option<String>)
    ensures
        optional_text(r) == directory_of(path@),
{
    let chars = chars_of(path);
    assert(path@.take(path@.len() as int) =~= path@);
    let n = tidied_len(&chars, chars.len());
    if n == 0 || (n == 1 && chars[0] == '/') {
        return None;
    }
    let mut k: usize = n;
    while k > 0 && chars[k - 1] != '/'
        invariant
            k <= n <= chars@.len(),
            up_to_separator(chars@.take(k as int)) == up_to_separator(chars@.take(n as int)),
        decreases k,
    {
        assert(chars@.take(k as int).drop_last() =~= chars@.take(k - 1));
        k = k - 1;
    }
    let m = tidied_len(&chars, k);
    Some(path.substring_char(0, m).to_string())
}

/// A relative path that is joined to a directory stays under that directory: the result begins
/// with the directory and ends with the path.
pub proof fn joined_path_stays_under_base(base: Seq<char>, path: Seq<char>)
    requires
        !is_absolute(path),
    ensures
        joined_path(base, path).take(base.len() as int) == base,
        joined_path(base, path).skip(joined_path(base, path).len() - path.len()) == path,
{
    let r = joined_path(base, path);
    assert(r.take(base.len() as int) =~= base);
    assert(r.skip(r.len() - path.len()) =~= path);
}

/// Seen from the empty path, every path is itself.
pub proof fn joined_path_from_nowhere(path: Seq<char>)
    ensures
        joined_path(Seq::<char>::empty(), path) == path,
{
    assert(Seq::<char>::empty() + path =~= path);
}

/// Up to its last separator, a path is what stands before a text that holds none.
proof fn lemma_up_to_separator(front: Seq<char>, file: Seq<char>)
    requires
        front.len() == 0 || front.last() == '/',
        !file.contains('/'),
    ensures
        up_to_separator(front + file) == front,
    decreases file.len(),
{
    let path = front + file;
    if file.len() == 0 {
        assert(path =~= front);
    } else {
        assert(file.contains(file.last()));
        assert forall|c: char| file.drop_last().contains(c) implies file.contains(c) by {
            let i = choose|i: int| 0 <= i < file.drop_last().len() && file.drop_last()[i] == c;
            assert(file[i] == c);
        }
        assert(path.drop_last() =~= front + file.drop_last());
        lemma_up_to_separator(front, file.drop_last());
    }
}

/// A component that comes last in a path stays when the path is tidied.
proof fn lemma_component_stays(front: Seq<char>, file: Seq<char>)
    requires
        is_component(file),
    ensures
        tidied(front + file) == front + file,
{
    let path = front + file;
    assert(file.contains(file.last()));
    if file.len() >= 2 {
        assert(file.contains(file[file.len() - 2]));
    }
    assert(path.last() == file.last());
    assert(path.len() >= 2 && file.len() >= 2 ==> path[path.len() - 2] == file[file.len() - 2]);
}

/// A component lies in the directory that it is put in: in the empty path where it stands alone, in
/// the root where only `/` stands before it, and else in what stands before the `/`, tidied.
pub proof fn component_lies_in_its_directory(dir: Seq<char>, file: Seq<char>)
    requires
        is_component(file),
    ensures
        directory_of(file) == Some(Seq::<char>::empty()),
        directory_of(seq!['/'] + file) == Some(seq!['/']),
        dir.len() > 0 ==> directory_of(dir.push('/') + file) == Some(tidied(dir)),
{
    let nowhere = Seq::<char>::empty();
    assert(nowhere + file =~= file);
    lemma_component_stays(nowhere, file);
    lemma_up_to_separator(nowhere, file);
    assert(file.contains(file[0]));
    lemma_component_stays(seq!['/'], file);
    lemma_up_to_separator(seq!['/'], file);
    lemma_component_stays(dir.push('/'), file);
    lemma_up_to_separator(dir.push('/'), file);
    assert(dir.push('/').drop_last() =~= dir);
}

/// What is tidy stays as it is.
proof fn lemma_tidied_twice(path: Seq<char>)
    ensures
        tidied(tidied(path)) == tidied(path),
    decreases path.len(),
{
    if path.len() >= 2 && tidied(path) != path {
        lemma_tidied_twice(path.drop_last());
    }
}

/// A directory is tidy: nothing follows its last component.
pub proof fn directories_are_tidy(path: Seq<char>)
    ensures
        directory_of(path) matches Some(dir) ==> tidied(dir) == dir,
{
    lemma_tidied_twice(up_to_separator(tidied(path)));
}

/// What follows the last component of a path does not change the directory that it lies in.
pub proof fn trailing_separators_do_not_matter(path: Seq<char>)
    requires
        path.len() > 0,
    ensures
        directory_of(path.push('/')) == directory_of(path),
        directory_of(path.push('/').push('.')) == directory_of(path),
{
    assert(path.push('/').drop_last() =~= path);
    assert(path.push('/').push('.').drop_last() =~= path.push('/'));
}

/// A relative path that is seen from the directory of a component is put in the place of the
/// component.
pub proof fn neighbour_lies_in_the_same_directory(
    dir: Seq<char>,
    file: Seq<char>,
    other: Seq<char>,
)
    requires
        is_component(file),
        !is_absolute(other),
    ensures
        directory_of(file) matches Some(d) && joined_path(d, other) == other,
        directory_of(seq!['/'] + file) matches Some(d) && joined_path(d, other) == seq!['/']
            + other,
        dir.len() > 0 && tidied(dir) == dir && dir.last() != '/' ==> (directory_of(
            dir.push('/') + file,
        ) matches Some(d) && joined_path(d, other) == dir.push('/') + other),
{
    component_lies_in_its_directory(dir, file);
    joined_path_from_nowhere(other);
}

/// A path that is joined to a directory: an absolute path stays as it is, and so does every path
/// where the directory is empty. Else the directory comes first, whole, and the path last, whole,
/// with one `/` between them where the directory does not end in one, and nothing where it does.
pub proof fn joined_path_keeps_both_parts(base: Seq<char>, path: Seq<char>)
    ensures
        path.len() > 0 && path[0] == '/' ==> joined_path(base, path) == path,
        base.len() == 0 ==> joined_path(base, path) == path,
        base.len() > 0 && !(path.len() > 0 && path[0] == '/') ==> {
            &&& base.is_prefix_of(joined_path(base, path))
            &&& path.is_suffix_of(joined_path(base, path))
            &&& base.last() == '/' ==> joined_path(base, path).len() == base.len() + path.len()
            &&& base.last() != '/' ==> joined_path(base, path).len() == base.len() + path.len() + 1
                && joined_path(base, path)[base.len() as int] == '/'
        },
{
    joined_path_from_nowhere(path);
    if base.len() == 0 {
        assert(base =~= Seq::<char>::empty());
    }
}

/// From the index `n` on, there are only separators, and `.` right after a separator.
pub open spec fn has_no_component_from(path: Seq<char>, n: int) -> bool {
    forall|i: int|
        n <= i < path.len() ==> (#[trigger] path[i] == '/' || (path[i] == '.' && i > 0 && path[i
            - 1] == '/'))
}

/// Where no component follows a part of a path, tidying the path is tidying that part.
proof fn lemma_tidied_part(path: Seq<char>, n: int)
    requires
        1 <= n <= path.len(),
        has_no_component_from(path, n),
    ensures
        tidied(path) == tidied(path.take(n)),
    decreases path.len(),
{
    if n < path.len() {
        let rest = path.drop_last();
        assert(path.last() == path[path.len() - 1]);
        assert forall|i: int| n <= i < rest.len() implies (#[trigger] rest[i] == '/' || (rest[i]
            == '.' && i > 0 && rest[i - 1] == '/')) by {
            assert(rest[i] == path[i]);
        }
        lemma_tidied_part(rest, n);
        assert(rest.take(n) =~= path.take(n));
    } else {
        assert(path.take(n) =~= path);
    }
}

/// A tidied path is a part of the path from its begin, and no component follows it there.
proof fn lemma_tidied_is_a_part(path: Seq<char>)
    ensures
        tidied(path).len() <= path.len(),
        path.len() > 0 ==> tidied(path).len() > 0,
        tidied(path) == path.take(tidied(path).len() as int),
        has_no_component_from(path, tidied(path).len() as int),
    decreases path.len(),
{
    let n = tidied(path).len() as int;
    if tidied(path) != path {
        let rest = path.drop_last();
        lemma_tidied_is_a_part(rest);
        assert(rest.take(n) =~= path.take(n));
        assert forall|i: int| n <= i < path.len() implies (#[trigger] path[i] == '/' || (path[i]
            == '.' && i > 0 && path[i - 1] == '/')) by {
            if i < rest.len() {
                assert(rest[i] == path[i]);
            }
        }
    } else {
        assert(path.take(n) =~= path);
    }
}

/// A path lies in no directory exactly where it names no component: where it is empty, or begins
/// with `/` and holds only separators and `.` after them.
pub proof fn only_nothing_and_the_root_lie_nowhere(path: Seq<char>)
    ensures
        directory_of(path) is None <==> path.len() == 0 || (path[0] == '/'
            && has_no_component_from(path, 1)),
{
    if path.len() > 0 {
        lemma_tidied_is_a_part(path);
        if path[0] == '/' && has_no_component_from(path, 1) {
            lemma_tidied_part(path, 1);
        }
        if directory_of(path) is None {
            assert(path[0] == tidied(path)[0]);
        }
    }
}

/// The directory of a path is what stands before its last component, character for character. The
/// path is read as a directory, a gap, a component and a rest, where the gap and the rest hold
/// only separators and `.` after them. Without a directory before the gap the path lies in the
/// root, and a component that comes first lies in the empty path; so does `.` alone.
pub proof fn directory_stands_before_the_last_component(
    dir: Seq<char>,
    gap: Seq<char>,
    file: Seq<char>,
    rest: Seq<char>,
)
    requires
        dir.len() > 0,
        dir.last() != '/',
        dir.len() >= 2 && dir.last() == '.' ==> dir[dir.len() - 2] != '/',
        gap.len() > 0,
        gap[0] == '/',
        gap.last() == '/',
        has_no_component_from(gap, 0),
        file.len() > 0,
        !file.contains('/'),
        file != seq!['.'],
        rest.len() > 0 ==> rest[0] == '/',
        has_no_component_from(rest, 0),
    ensures
        directory_of(dir + gap + file + rest) == Some(dir),
        directory_of(gap + file + rest) == Some(seq!['/']),
        directory_of(file + rest) == Some(Seq::<char>::empty()),
        directory_of(seq!['.'] + rest) == Some(Seq::<char>::empty()),
{
    let nowhere = Seq::<char>::empty();
    assert(is_component(file)) by {
        if file.len() == 1 && file[0] == '.' {
            assert(file =~= seq!['.']);
        }
    }
    assert(nowhere + file =~= file);
    assert(file.contains(file[0]));
    lemma_rest_does_not_matter(dir + gap + file, rest);
    lemma_rest_does_not_matter(gap + file, rest);
    lemma_rest_does_not_matter(file, rest);
    lemma_rest_does_not_matter(seq!['.'], rest);
    lemma_component_stays(dir + gap, file);
    lemma_component_stays(gap, file);
    lemma_component_stays(nowhere, file);
    lemma_up_to_separator(dir + gap, file);
    lemma_up_to_separator(gap, file);
    lemma_up_to_separator(nowhere, file);
    lemma_rest_does_not_matter(dir, gap);
    assert forall|i: int| 1 <= i < gap.len() implies (#[trigger] gap[i] == '/' || (gap[i] == '.'
        && i > 0 && gap[i - 1] == '/')) by {}
    lemma_tidied_part(gap, 1);
    assert(gap.take(1) =~= seq!['/']);
    assert(seq!['.'].drop_last() =~= nowhere);
    assert(up_to_separator(seq!['.']) == up_to_separator(nowhere));
}

/// Separators, and `.` after them, are tidied away behind a text.
proof fn lemma_rest_does_not_matter(text: Seq<char>, rest: Seq<char>)
    requires
        text.len() > 0,
        has_no_component_from(rest, 0),
    ensures
        tidied(text + rest) == tidied(text),
{
    let path = text + rest;
    let n = text.len() as int;
    assert forall|i: int| n <= i < path.len() implies (#[trigger] path[i] == '/' || (path[i]
        == '.' && i > 0 && path[i - 1] == '/')) by {
        assert(path[i] == rest[i - n]);
    }
    lemma_tidied_part(path, n);
    assert(path.take(n) =~= text);
}

/// A string that is given is there, even where it is empty, and one that is not given is not.
pub proof fn given_strings_are_there(text: Option<String>)
    ensures
        optional_text(text) is Some <==> text is Some,
        text is Some ==> optional_text(text) == Some(text->0@),
{
}

} // verus!
