//! Paths as sequences of characters: file names and extensions.
//!
//! A path is text whose components are separated by `/`. Its file name is
//! what follows the last separator, and the extension of a file name is what
//! follows its last dot.
use vstd::prelude::*;

verus! {

/// The character that separates the components of a path.
pub const SEPARATOR: char = '/';

/// The character that introduces the extension of a file name.
pub const DOT: char = '.';

/// The position of the last occurrence of `c` in `s`, or `-1` where `s`
/// does not hold `c`.
pub open spec fn last_position(s: Seq<char>, c: char) -> int
    decreases s.len(),
{
    if s.len() == 0 {
        -1
    } else if s.last() == c {
        s.len() - 1
    } else {
        last_position(s.drop_last(), c)
    }
}

/// What follows the last occurrence of `c` in `s`; all of `s` where it does
/// not hold `c`.
pub open spec fn after_last(s: Seq<char>, c: char) -> Seq<char> {
    s.subrange(last_position(s, c) + 1, s.len() as int)
}

/// The file name of a path: what follows its last separator.
pub open spec fn file_name_of(path: Seq<char>) -> Seq<char> {
    after_last(path, SEPARATOR)
}

/// The extension of a path: what follows the last dot of its file name.
/// A file name without a dot has none; one that ends in a dot has the empty
/// extension; the name `.txt` has the extension `txt`.
pub open spec fn extension_of(path: Seq<char>) -> Option<Seq<char>> {
    let name = file_name_of(path);
    if last_position(name, DOT) < 0 {
        None
    } else {
        Some(after_last(name, DOT))
    }
}

/// `directory`, a separator, then `name`.
pub open spec fn joined(directory: Seq<char>, name: Seq<char>) -> Seq<char> {
    directory.push(SEPARATOR) + name
}

/// `last_position` is the one index that holds `c` with no `c` behind it.
pub proof fn lemma_last_position(s: Seq<char>, c: char)
    ensures
        -1 <= last_position(s, c) < s.len(),
        last_position(s, c) >= 0 ==> s[last_position(s, c)] == c,
        forall|i: int| last_position(s, c) < i < s.len() ==> s[i] != c,
    decreases s.len(),
{
    if s.len() > 0 && s.last() != c {
        lemma_last_position(s.drop_last(), c);
        assert forall|i: int| last_position(s, c) < i < s.len() implies s[i] != c by {
            if i < s.len() - 1 {
                assert(s.drop_last()[i] == s[i]);
            }
        }
    }
}

/// An index that holds `c` with no `c` behind it is `last_position`.
pub proof fn lemma_last_position_unique(s: Seq<char>, c: char, at: int)
    requires
        -1 <= at < s.len(),
        at >= 0 ==> s[at] == c,
        forall|i: int| at < i < s.len() ==> s[i] != c,
    ensures
        last_position(s, c) == at,
{
    lemma_last_position(s, c);
}

/// A file name holds no separator, and a path ends in its file name.
pub proof fn lemma_file_name(path: Seq<char>)
    ensures
        !file_name_of(path).contains(SEPARATOR),
        file_name_of(path).len() <= path.len(),
        path.subrange(path.len() - file_name_of(path).len(), path.len() as int) == file_name_of(
            path,
        ),
        file_name_of(path).len() < path.len() ==> path[path.len() - file_name_of(path).len() - 1]
            == SEPARATOR,
{
    lemma_last_position(path, SEPARATOR);
}

/// Joining a directory and a name that holds no separator gives a path whose
/// file name is that name, and so whose extension is that of the name.
pub proof fn lemma_file_name_of_joined(directory: Seq<char>, name: Seq<char>)
    requires
        !name.contains(SEPARATOR),
    ensures
        file_name_of(joined(directory, name)) == name,
        extension_of(joined(directory, name)) == extension_of(name),
{
    let path = joined(directory, name);
    assert forall|i: int| directory.len() < i < path.len() implies path[i] != SEPARATOR by {
        assert(path[i] == name[i - directory.len() - 1]);
        assert(name.contains(path[i]));
    }
    lemma_last_position_unique(path, SEPARATOR, directory.len() as int);
    assert(file_name_of(path) =~= name);
    assert forall|i: int| 0 <= i < name.len() implies name[i] != SEPARATOR by {
        assert(name.contains(name[i]));
    }
    lemma_last_position_unique(name, SEPARATOR, -1);
    assert(file_name_of(name) =~= name);
}

/// The characters of `s`, one by one.
pub fn chars_of(s: &str) -> (chars: Vec<char>)
    ensures
        chars@ == s@,
{
    let mut chars: Vec<char> = Vec::new();
    for c in iter: s.chars()
        invariant
            iter.seq() == s@,
            chars@ == s@.take(iter.index() as int),
    {
        chars.push(c);
    }
    chars
}

/// The number of characters of `chars[..end]` up to and including the last
/// `c` among them: the index just behind that `c`, or 0 where there is none.
fn start_after_last(chars: &Vec<char>, end: usize, c: char) -> (start: usize)
    requires
        end <= chars.len(),
    ensures
        start <= end,
        start == last_position(chars@.take(end as int), c) + 1,
{
    let mut start: usize = end;
    while start > 0 && chars[start - 1] != c
        invariant
            start <= end <= chars.len(),
            forall|i: int| start <= i < end ==> chars[i] != c,
        decreases start,
    {
        start = start - 1;
    }
    proof {
        lemma_last_position_unique(chars@.take(end as int), c, start - 1);
    }
    start
}

/// The file name of `path`: what follows its last `/`, or all of `path`
/// where it holds none.
pub fn file_name<'a>(path: &'a str) -> (name: &'a str)
    ensures
        name@ == file_name_of(path@),
{
    let chars = chars_of(path);
    let start = start_after_last(&chars, chars.len(), SEPARATOR);
    assert(chars@.take(chars.len() as int) == chars@);
    path.substring_char(start, chars.len())
}

/// The extension of `path`: what follows the last `.` of its file name, or
/// `None` where the file name holds no `.`.
pub fn extension<'a>(path: &'a str) -> (ext: Option<&'a str>)
    ensures
        match ext {
            Some(e) => extension_of(path@) == Some(e@),
            None => extension_of(path@) is None,
        },
{
    let name = file_name(path);
    let chars = chars_of(name);
    let start = start_after_last(&chars, chars.len(), DOT);
    assert(chars@.take(chars.len() as int) == chars@);
    if start == 0 {
        None
    } else {
        Some(name.substring_char(start, chars.len()))
    }
}

/// `directory`, a `/`, then `name`, as one path.
pub fn join(directory: &str, name: &str) -> (path: String)
    ensures
        path@ == joined(directory@, name@),
{
    let mut path = String::from_str(directory);
    path.append("/");
    path.append(name);
    proof {
        reveal_strlit("/");
        assert("/"@ == seq![SEPARATOR]);
    }
    path
}

} // verus!
