//! Paths to the toolchain's executables, as text with uniform separators.

use vstd::prelude::*;
use crate::text::{is_uniform, lemma_replace_each_pointwise, normalize_separators, normalized};
use std::path::Path;

verus! {

/// Why a path could not be derived.
#[derive(Debug, Clone, Copy, PartialEq, Eq, Structural)]
pub enum PathError {
    /// The path is no valid Unicode text.
    InvalidPath,
}

/// The file name of the compiler under the toolchain directory.
pub const COMPILER_FILE: &'static str = "g++.exe";

/// The file name of the debugger under the toolchain directory.
pub const DEBUGGER_FILE: &'static str = "gdb.exe";

/// Whether `s` ends with `t`.
pub open spec fn ends_with(s: Seq<char>, t: Seq<char>) -> bool {
    s.len() >= t.len() && s.subrange(s.len() - t.len(), s.len() as int) == t
}

/// Whether `s` begins with `t`.
pub open spec fn starts_with(s: Seq<char>, t: Seq<char>) -> bool {
    s.len() >= t.len() && s.subrange(0, t.len() as int) == t
}

/// Whether `c` separates the parts of a path on some platform.
pub open spec fn is_separator(c: char) -> bool {
    c == '/' || c == '\\'
}

/// Whether `dir` begins with two separators, as the paths of Windows do
/// that name a network share or are to be taken verbatim.
pub open spec fn begins_doubly(dir: Seq<char>) -> bool {
    dir.len() >= 2 && is_separator(dir[0]) && is_separator(dir[1])
}

/// Whether `s` is the plain name of a file: not empty, without a separator
/// or a colon, and neither `.` nor `..`. On every platform such a name is a
/// relative path of one component.
pub open spec fn is_file_name(s: Seq<char>) -> bool {
    &&& s.len() > 0
    &&& forall|i: int| 0 <= i < s.len() ==> #[trigger] s[i] != '/' && s[i] != '\\' && s[i] != ':'
    &&& s != seq!['.']
    &&& s != seq!['.', '.']
}

/// The text of the path `dir` with `sub` adjoined, as the platform joins
/// paths.
///
/// Trusted: this is `Path::join` of std, between `Path::new` on the one side
/// and `Path::to_str`, copied into a `String`, on the other. A path made of
/// text and joined with text is valid Unicode, so the text is always there.
/// `Path::join` extends the path as `PathBuf::push` does, which replaces what
/// stood before only where `sub` is absolute or has a root or a prefix; a
/// plain file name is none of these, so it comes last in the joined path,
/// and the directory first. The one exception that std documents is a
/// directory with a verbatim prefix, which Windows rewrites on a join; such a
/// directory begins with two separators, and of those nothing is said about
/// the beginning. Which separator comes in between, if any, is the
/// platform's to say.
#[verifier::external_body]
pub(crate) fn joined_text(dir: &str, sub: &str) -> (r: Option<String>)
    ensures
        r is Some,
        is_file_name(sub@) ==> ends_with(r->Some_0@, sub@),
        is_file_name(sub@) && !begins_doubly(dir@) ==> starts_with(r->Some_0@, dir@),
{
    Path::new(dir).join(sub).to_str().map(|s| s.to_owned())
}

/// The text of a joined path, or the error that stands for its absence.
pub fn text_or_invalid(text: Option<String>) -> (r: Result<String, PathError>)
    ensures
        match text {
            Some(t) => r == Ok::<String, PathError>(t),
            None => r == Err::<String, PathError>(PathError::InvalidPath),
        },
{
    match text {
        Some(t) => Ok(t),
        None => Err(PathError::InvalidPath),
    }
}

/// Joins `sub` to the directory `path` as the platform does. The join of two
/// texts always succeeds. A plain file name ends the joined path, and the
/// directory begins it unless it begins with two separators.
pub fn join_path(path: &str, sub: &str) -> (r: Result<String, PathError>)
    ensures
        r is Ok,
        is_file_name(sub@) ==> ends_with(r->Ok_0@, sub@),
        is_file_name(sub@) && !begins_doubly(path@) ==> starts_with(r->Ok_0@, path@),
{
    text_or_invalid(joined_text(path, sub))
}

/// The path of the executable `file` under the directory `toolchain`, with
/// uniform separators. It is always there. Where `file` is a plain file
/// name, the path ends with it, and begins with the directory, its
/// separators made uniform, unless that begins with two separators.
pub fn executable_under(toolchain: &str, file: &str) -> (r: Result<String, PathError>)
    ensures
        r is Ok,
        is_uniform(r->Ok_0@),
        is_file_name(file@) ==> ends_with(r->Ok_0@, file@),
        is_file_name(file@) && !begins_doubly(toolchain@) ==> starts_with(
            r->Ok_0@,
            normalized(toolchain@),
        ),
{
    let joined = join_path(toolchain, file);
    proof {
        if is_file_name(file@) {
            lemma_normalized_keeps_ending(joined->Ok_0@, file@);
            if !begins_doubly(toolchain@) {
                lemma_normalized_keeps_beginning(joined->Ok_0@, toolchain@);
            }
        }
    }
    uniform_or_invalid(joined)
}

/// What becomes of a joined path: its text with uniform separators, or the
/// error of the join.
pub fn uniform_or_invalid(joined: Result<String, PathError>) -> (r: Result<String, PathError>)
    ensures
        match joined {
            Ok(text) => r is Ok && r->Ok_0@ == normalized(text@) && is_uniform(r->Ok_0@),
            Err(e) => r == Err::<String, PathError>(e),
        },
{
    match joined {
        Ok(text) => Ok(normalize_separators(text.as_str())),
        Err(e) => Err(e),
    }
}

/// Making separators uniform leaves the end of a text as it is, where that
/// end holds no backslash.
pub proof fn lemma_normalized_keeps_ending(text: Seq<char>, ending: Seq<char>)
    requires
        ends_with(text, ending),
        is_uniform(ending),
    ensures
        ends_with(normalized(text), ending),
{
    lemma_replace_each_pointwise(text, '\\', '/');
    let start = text.len() - ending.len();
    assert forall|j: int| 0 <= j < ending.len() implies normalized(text)[start + j]
        == ending[j] by {
        assert(text.subrange(start, text.len() as int)[j] == text[start + j]);
    }
    assert(normalized(text).subrange(start, text.len() as int) =~= ending);
}

/// Making separators uniform in a text does so in its beginning.
pub proof fn lemma_normalized_keeps_beginning(text: Seq<char>, beginning: Seq<char>)
    requires
        starts_with(text, beginning),
    ensures
        starts_with(normalized(text), normalized(beginning)),
{
    lemma_replace_each_pointwise(text, '\\', '/');
    lemma_replace_each_pointwise(beginning, '\\', '/');
    assert forall|j: int| 0 <= j < beginning.len() implies normalized(text)[j] == normalized(
        beginning,
    )[j] by {
        assert(text.subrange(0, beginning.len() as int)[j] == text[j]);
    }
    assert(normalized(text).subrange(0, beginning.len() as int) =~= normalized(beginning));
}

/// The names of the two executables are plain file names.
pub proof fn lemma_executables_are_file_names()
    ensures
        is_file_name(COMPILER_FILE@),
        is_file_name(DEBUGGER_FILE@),
{
    reveal_strlit("g++.exe");
    reveal_strlit("gdb.exe");
    assert(COMPILER_FILE@.len() == 7 && DEBUGGER_FILE@.len() == 7);
}

} // verus!
