//! A file path as a sequence of characters separated by `/`, and the two
//! pieces of it that the screenshot rule reads: the file name and its extension.
use vstd::prelude::*;
use vstd::string::*;

verus! {

/// Position of the last occurrence of `c` in `s`, or -1 when `c` does not occur.
pub open spec fn last_pos(s: Seq<char>, c: char) -> int
    decreases s.len(),
{
    if s.len() == 0 {
        -1
    } else if s.last() == c {
        s.len() - 1
    } else {
        last_pos(s.drop_last(), c)
    }
}

/// The last component of `p`: what follows its last `/`. A path that ends in
/// `/`, `.` or `..` names no file.
pub open spec fn file_name_of(p: Seq<char>) -> Option<Seq<char>> {
    let name = p.subrange(last_pos(p, '/') + 1, p.len() as int);
    if name.len() == 0 || name == seq!['.'] || name == seq!['.', '.'] {
        None
    } else {
        Some(name)
    }
}

/// What follows the last `.` of a file name. A name without a `.`, or whose
/// only `.` is its first character, has no extension.
pub open spec fn extension_of(name: Seq<char>) -> Option<Seq<char>> {
    let i = last_pos(name, '.');
    if i <= 0 {
        None
    } else {
        Some(name.subrange(i + 1, name.len() as int))
    }
}

pub open spec fn opt_view(o: Option<String>) -> Option<Seq<char>> {
    match o {
        Some(s) => Some(s@),
        None => None,
    }
}

/// A path seen in a creation event, with the file name and extension that
/// the rule reads from it.
pub struct ScreenshotCandidate {
    pub path: String,
    pub filename: String,
    pub extension: String,
}

impl ScreenshotCandidate {
    /// The candidate's parts agree with its path.
    pub open spec fn wf(&self) -> bool {
        &&& file_name_of(self.path@) == Some(self.filename@)
        &&& extension_of(self.filename@) == Some(self.extension@)
    }

    /// Splits `path` into its file name and extension; `None` when it lacks either.
    pub fn from_path(path: &str) -> (r: Option<ScreenshotCandidate>)
        ensures
            match r {
                Some(c) => c.path@ == path@ && c.wf(),
                None => file_name_of(path@) is None || extension_of(
                    file_name_of(path@)->Some_0,
                ) is None,
            },
    {
        match file_name(path) {
            None => None,
            Some(name) => match extension(name.as_str()) {
                None => None,
                Some(ext) => Some(
                    ScreenshotCandidate { path: String::from_str(path), filename: name, extension: ext },
                ),
            },
        }
    }
}

/// Finds the last occurrence of `c` in `s`.
pub fn last_index_of(s: &str, c: char) -> (r: Option<usize>)
    ensures
        match r {
            Some(i) => i == last_pos(s@, c) && i < s@.len(),
            None => last_pos(s@, c) == -1,
        },
{
    let n = s.unicode_len();
    let mut i: usize = n;
    assert(s@.subrange(0, n as int) =~= s@);
    while i > 0
        invariant
            n == s@.len(),
            i <= n,
            last_pos(s@, c) == last_pos(s@.subrange(0, i as int), c),
        decreases i,
    {
        if s.get_char(i - 1) == c {
            return Some(i - 1);
        }
        assert(s@.subrange(0, i as int).drop_last() =~= s@.subrange(0, i - 1));
        i = i - 1;
    }
    None
}

/// True when `s` holds exactly the characters of `t`.
pub fn same_chars(s: &str, t: &str) -> (r: bool)
    ensures
        r == (s@ == t@),
{
    let n = s.unicode_len();
    if n != t.unicode_len() {
        return false;
    }
    let mut i: usize = 0;
    while i < n
        invariant
            n == s@.len(),
            n == t@.len(),
            i <= n,
            forall|j: int| 0 <= j < i ==> s@[j] == t@[j],
        decreases n - i,
    {
        if s.get_char(i) != t.get_char(i) {
            return false;
        }
        i = i + 1;
    }
    assert(s@ =~= t@);
    true
}

/// The file name of `path`, as `file_name_of` describes it.
pub fn file_name(path: &str) -> (r: Option<String>)
    ensures
        opt_view(r) == file_name_of(path@),
{
    let n = path.unicode_len();
    let start: usize = match last_index_of(path, '/') {
        Some(i) => i + 1,
        None => 0,
    };
    let name = path.substring_char(start, n);
    proof {
        reveal_strlit(".");
        reveal_strlit("..");
        assert("."@ =~= seq!['.']);
        assert(".."@ =~= seq!['.', '.']);
    }
    if name.unicode_len() == 0 || same_chars(name, ".") || same_chars(name, "..") {
        None
    } else {
        Some(String::from_str(name))
    }
}

/// The extension of the file name `name`, as `extension_of` describes it.
pub fn extension(name: &str) -> (r: Option<String>)
    ensures
        opt_view(r) == extension_of(name@),
{
    match last_index_of(name, '.') {
        None => None,
        Some(i) => {
            if i == 0 {
                None
            } else {
                let n = name.unicode_len();
                Some(String::from_str(name.substring_char(i + 1, n)))
            }
        },
    }
}

} // verus!
