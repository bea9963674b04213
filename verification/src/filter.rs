//! Rules that decide which opened paths are not recorded.

use vstd::prelude::*;
use crate::text::{chars_of, find, is_prefix, lemma_find_zero_iff_prefix, same_text};

verus! {

/// What the file system holds at a path.
#[derive(Clone, Copy, Debug, PartialEq, Eq, Structural)]
pub enum PathKind {
    /// Nothing exists at the path.
    Missing,
    /// The path names a directory.
    Dir,
    /// The path names something other than a directory.
    File,
}

/// `p` with a `/` appended unless it already ends with one.
pub open spec fn dir_prefix(p: Seq<char>) -> Seq<char> {
    if p.len() > 0 && p.last() == '/' {
        p
    } else {
        p.push('/')
    }
}

/// Whether `path2` falls under the ignored path `path1`, given what the
/// file system holds at `path1`: everything below a directory, the very
/// path for other files, nothing for a path that does not exist.
pub open spec fn spec_ignore_filter(path1: Seq<char>, path2: Seq<char>, kind: PathKind) -> bool {
    match kind {
        PathKind::Missing => false,
        PathKind::Dir => is_prefix(dir_prefix(path1), path2),
        PathKind::File => path1 == path2,
    }
}

/// Decides whether `path2` is covered by the ignored path `path1`, where
/// `kind` is what the file system holds at `path1`.
pub fn ignore_filter(path1: &str, path2: &str, kind: PathKind) -> (res: bool)
    ensures
        res == spec_ignore_filter(path1@, path2@, kind),
{
    match kind {
        PathKind::Missing => false,
        PathKind::Dir => {
            let mut with_slash = path1.to_owned();
            let chars = chars_of(path1);
            let ends_with_slash = chars.len() > 0 && chars[chars.len() - 1] == '/';
            if !ends_with_slash {
                with_slash.push('/');
            }
            let idx = find(path2, with_slash.as_str());
            proof {
                lemma_find_zero_iff_prefix(path2@, dir_prefix(path1@));
            }
            match idx {
                Some(i) => i == 0,
                None => false,
            }
        },
        PathKind::File => same_text(path1, path2),
    }
}

/// A directory covers every path below it, however deep: the directory's
/// path followed by `/` (unless it already ends with one) and then anything
/// at all. It covers nothing else: a covered path starts with the directory's
/// path, and right after it comes a `/` or the directory's own trailing `/`.
pub proof fn lemma_dir_covers_everything_below(dir: Seq<char>, rest: Seq<char>, path: Seq<char>)
    ensures
        dir.len() > 0 && dir.last() == '/' ==> spec_ignore_filter(dir, dir + rest, PathKind::Dir),
        !(dir.len() > 0 && dir.last() == '/') ==> spec_ignore_filter(
            dir,
            dir + seq!['/'] + rest,
            PathKind::Dir,
        ),
        spec_ignore_filter(dir, path, PathKind::Dir) ==> {
            &&& dir.len() <= path.len()
            &&& path.take(dir.len() as int) == dir
            &&& ((dir.len() > 0 && dir.last() == '/') || (dir.len() < path.len() && path[dir.len() as int]
                == '/'))
        },
{
    if dir.len() > 0 && dir.last() == '/' {
        assert((dir + rest).subrange(0, dir.len() as int) =~= dir);
    } else {
        assert((dir + seq!['/'] + rest).subrange(0, dir.len() + 1int) =~= dir.push('/'));
    }
    if spec_ignore_filter(dir, path, PathKind::Dir) {
        let d = dir_prefix(dir);
        assert(path.subrange(0, d.len() as int) == d);
        assert(path.take(dir.len() as int) =~= d.take(dir.len() as int));
        assert(d.take(dir.len() as int) =~= dir);
        if !(dir.len() > 0 && dir.last() == '/') {
            assert(path[dir.len() as int] == path.subrange(0, d.len() as int)[dir.len() as int]);
        } else {
            assert(dir.len() <= path.len());
        }
    }
}

/// A file other than a directory covers exactly its own path, and a path
/// where nothing exists covers nothing.
pub proof fn lemma_file_covers_itself_only(file: Seq<char>, path: Seq<char>)
    ensures
        spec_ignore_filter(file, path, PathKind::File) <==> file =~= path,
        !spec_ignore_filter(file, path, PathKind::Missing),
{
}

} // verus!
