//! Helpers for presenting data in the user interface.
use vstd::prelude::*;

verus! {

/// The characters of `s` after its last occurrence of `sep` (all of `s` without one).
pub open spec fn after_last(s: Seq<char>, sep: char) -> Seq<char>
    decreases s.len(),
{
    if s.len() == 0 {
        s
    } else if s.last() == sep {
        Seq::empty()
    } else {
        after_last(s.drop_last(), sep).push(s.last())
    }
}

/// Whether every platform splits `path` into components in the same way: it holds no `\`
/// and no `:` (no Windows separator or prefix), and it does not start with `//`.
pub open spec fn is_portable_path(path: Seq<char>) -> bool {
    &&& forall|i: int| 0 <= i < path.len() ==> #[trigger] path[i] != '\\' && path[i] != ':'
    &&& !(path.len() >= 2 && path[0] == '/' && path[1] == '/')
}

/// `path` without what `std::path::Path::components` normalizes away at its end: trailing
/// separators and `.` parts (`a/b/`, `a/b/.` and `a/b/./` all end in the part `b`).
pub open spec fn without_trailing_separators(path: Seq<char>) -> Seq<char>
    decreases path.len(),
{
    if path.len() > 0 && path.last() == '/' {
        without_trailing_separators(path.drop_last())
    } else if path.len() >= 2 && path.last() == '.' && path[path.len() - 2] == '/' {
        without_trailing_separators(path.drop_last())
    } else {
        path
    }
}

/// The file name of a portable path, as the documentation of `std::path::Path::file_name`
/// and `Path::components` fixes it on every platform: the last part of the path, once
/// trailing separators and `.` parts are normalized away, if that part is a name; no file
/// name if it is `..` (the path ends in `..`), `.` (the current directory) or empty (the
/// root, or the empty path). The outer `None` stands for the paths that are not portable.
pub open spec fn known_file_name(path: Seq<char>) -> Option<Option<Seq<char>>> {
    let last = after_last(without_trailing_separators(path), '/');
    if !is_portable_path(path) {
        None
    } else if last.len() == 0 || last == seq!['.'] || last == seq!['.', '.'] {
        Some(None)
    } else {
        Some(Some(last))
    }
}

/// Calls `std::path::Path::file_name` on `path` and converts the result with
/// `OsStr::to_str`. Claimed, as the documentation of `Path::file_name` and `Path::components`
/// says for every platform: for a portable path the file name is the one that
/// `known_file_name` gives (none for `/`, `.`, the empty path and paths that end in `..`).
/// Beyond portable paths, what a final component is depends on the platform and is left
/// unsaid.
#[verifier::external_body]
fn file_name_of(path: &str) -> (r: Option<String>)
    ensures
        known_file_name(path@) matches Some(k) ==> (r is Some <==> k is Some),
        r matches Some(n) ==> (known_file_name(path@) matches Some(Some(c)) ==> n@ == c),
{
    match std::path::Path::new(path).file_name() {
        Some(name) => name.to_str().map(String::from),
        None => None,
    }
}

/// The text shown for `path`: the full path if desired, otherwise its file name if it
/// has one, else the full path.
pub open spec fn display_path_of(path: Seq<char>, file_name: Option<Seq<char>>, show_full_paths: bool) -> Seq<char> {
    if show_full_paths {
        path
    } else {
        match file_name {
            Some(n) => n,
            None => path,
        }
    }
}

/// Chooses the text shown for `path`, given its file name `file_name`.
pub fn choose_display_path(path: &str, file_name: Option<String>, show_full_paths: bool) -> (s: String)
    ensures
        s@ == display_path_of(
            path@,
            match file_name {
                Some(n) => Some(n@),
                None => None,
            },
            show_full_paths,
        ),
{
    if show_full_paths {
        return path.to_owned();
    }
    match file_name {
        Some(n) => n,
        None => path.to_owned(),
    }
}

/// Shortens a path for UI usage if it's desired: its file name, as `std::path::Path`
/// finds it on this platform, as `choose_display_path` says. For portable paths the
/// file name is the one that `known_file_name` gives.
pub fn display_path(path: &str, show_full_paths: bool) -> (s: String)
    ensures
        show_full_paths ==> s@ == path@,
        known_file_name(path@) matches Some(k) ==> s@ == display_path_of(path@, k, show_full_paths),
{
    if show_full_paths {
        return path.to_owned();
    }
    let file_name = file_name_of(path);
    choose_display_path(path, file_name, show_full_paths)
}

} // verus!
