//! Helpers for the paths of source and output files.
//!
//! Paths are plain text here, with `/` between their parts.

use vstd::prelude::*;
use vstd::std_specs::iter::IteratorSpec;

verus! {

/// Where the last part of `path` starts: behind its last `/`, or at 0.
pub open spec fn file_name_start(path: Seq<char>) -> int
    decreases path.len(),
{
    if path.len() == 0 || path.last() == '/' {
        path.len() as int
    } else {
        file_name_start(path.drop_last())
    }
}

/// The index of the last `.` of `path` that lies behind `start + 1` or
/// later, or -1. A dot at `start` itself opens a hidden file's name and no
/// extension.
pub open spec fn last_dot(path: Seq<char>, start: int) -> int
    decreases path.len(),
{
    if path.len() == 0 || path.len() <= start + 1 {
        -1
    } else if path.last() == '.' {
        path.len() - 1
    } else {
        last_dot(path.drop_last(), start)
    }
}

/// Where the file name of `path` ends without its extension.
pub open spec fn stem_end(path: Seq<char>) -> int {
    if last_dot(path, file_name_start(path)) >= 0 {
        last_dot(path, file_name_start(path))
    } else {
        path.len() as int
    }
}

/// The last part of `path`: its file name.
pub open spec fn file_name(path: Seq<char>) -> Seq<char> {
    path.skip(file_name_start(path))
}

/// A path names a file if its last part is a name: not empty, and neither
/// `.` nor `..`.
pub open spec fn names_file(path: Seq<char>) -> bool {
    &&& file_name(path).len() > 0
    &&& file_name(path) != seq!['.']
    &&& file_name(path) != seq!['.', '.']
}

/// The name of the output file that goes with the source file `path`: the
/// file name of the source, without directories, its extension replaced by
/// `css`.
pub open spec fn default_out_file(path: Seq<char>) -> Seq<char> {
    path.subrange(file_name_start(path), stem_end(path)) + seq!['.', 'c', 's', 's']
}

/// The file name starts within the path, and the stem ends within the file
/// name.
pub proof fn lemma_file_name_bounds(path: Seq<char>)
    ensures
        0 <= file_name_start(path) <= stem_end(path) <= path.len(),
{
    lemma_file_name_start_bounds(path);
    lemma_last_dot_bounds(path, file_name_start(path));
}

proof fn lemma_file_name_start_bounds(path: Seq<char>)
    ensures
        0 <= file_name_start(path) <= path.len(),
    decreases path.len(),
{
    if !(path.len() == 0 || path.last() == '/') {
        lemma_file_name_start_bounds(path.drop_last());
    }
}

proof fn lemma_last_dot_bounds(path: Seq<char>, start: int)
    requires
        0 <= start,
    ensures
        last_dot(path, start) == -1 || start < last_dot(path, start) < path.len(),
    decreases path.len(),
{
    if path.len() > start + 1 && path.last() != '.' {
        lemma_last_dot_bounds(path.drop_last(), start);
    }
}

/// Finds where the file name of `path` starts and where its stem ends, and
/// how long the path is.
fn split_path(path: &str) -> (parts: (usize, usize, usize))
    ensures
        parts.0 == file_name_start(path@),
        parts.1 == stem_end(path@),
        parts.2 == path@.len(),
{
    let len: usize = path.unicode_len();
    let mut chars = path.chars();
    let mut start: usize = 0;
    let mut dot: Option<usize> = None;
    let mut i: usize = 0;
    loop
        invariant
            i <= len,
            len == path@.len(),
            chars.remaining() == path@.skip(i as int),
            start == file_name_start(path@.take(i as int)),
            start <= i,
            match dot {
                Some(at) => at == last_dot(path@.take(i as int), start as int),
                None => last_dot(path@.take(i as int), start as int) == -1,
            },
        decreases len - i,
    {
        match chars.next() {
            None => {
                assert(path@.take(i as int) =~= path@);
                let end: usize = match dot {
                    Some(at) => at,
                    None => len,
                };
                return (start, end, len);
            },
            Some(c) => {
                assert(path@.take(i + 1).drop_last() =~= path@.take(i as int));
                if c == '/' {
                    start = i + 1;
                    dot = None;
                } else if c == '.' && i > start {
                    dot = Some(i);
                }
                i += 1;
            },
        }
    }
}

/// Whether `path` names a file.
pub fn path_names_file(path: &str) -> (b: bool)
    ensures
        b == names_file(path@),
{
    let (start, _, len) = split_path(path);
    proof {
        lemma_file_name_bounds(path@);
    }
    if start == len {
        return false;
    }
    let first = path.get_char(start);
    if first != '.' {
        assert(file_name(path@)[0] != '.');
        return true;
    }
    if len - start == 1 {
        assert(file_name(path@) =~= seq!['.']);
        return false;
    }
    let second = path.get_char(start + 1);
    if len - start == 2 && second == '.' {
        assert(file_name(path@) =~= seq!['.', '.']);
        return false;
    }
    assert(seq!['.'].len() == 1);
    assert(seq!['.', '.'].len() == 2 && seq!['.', '.'][1] == '.');
    true
}

/// Gives the name of the output file that goes with the source file `file`
/// where none is asked for: beside the working directory, named like the
/// source, with the extension `css`.
pub fn create_default_out_file_pathbuf(file: &str) -> (out: String)
    requires
        names_file(file@),
    ensures
        out@ == default_out_file(file@),
{
    let (start, end, _) = split_path(file);
    proof {
        lemma_file_name_bounds(file@);
        reveal_strlit(".css");
    }
    let stem = file.substring_char(start, end);
    let out = String::from_str(stem).concat(".css");
    out
}

} // verus!
