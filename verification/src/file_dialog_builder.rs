//! File type filters of the file dialogs.
use vstd::prelude::*;
use vstd::utf8::encode_utf8;

use crate::ui_helpers::{after_last, known_file_name};

verus! {

/// Whether `name` has a `.` after its first character.
pub open spec fn has_inner_dot(name: Seq<char>) -> bool {
    exists|i: int| 1 <= i < name.len() && #[trigger] name[i] == '.'
}

/// The extension of a portable path, where the documentation of `std::path::Path::extension`
/// fixes it: of a file name that has a `.` after its first character, the part after the
/// last `.`; no extension for a file name without one, or for a path without a file name.
/// The outer `None` stands for the paths for which nothing is fixed here.
pub open spec fn known_extension(path: Seq<char>) -> Option<Option<Seq<char>>> {
    match known_file_name(path) {
        None => None,
        Some(None) => Some(None),
        Some(Some(name)) => if has_inner_dot(name) {
            Some(Some(after_last(name, '.')))
        } else {
            Some(None)
        },
    }
}

/// Calls `std::path::Path::extension` on `path` and converts the result with
/// `OsStr::to_str`. Claimed, as the documentation of `Path::extension` says: for a portable
/// path whose file name is known (see `known_extension`), the extension is the part of the
/// file name after its last `.`, and there is none if the file name has no `.` after its
/// first character. Beyond these paths it depends on the platform and is left unsaid.
#[verifier::external_body]
pub(crate) fn extension_of(path: &str) -> (r: Option<String>)
    ensures
        known_extension(path@) matches Some(k) ==> (r is Some <==> k is Some),
        r matches Some(e) ==> (known_extension(path@) matches Some(Some(x)) ==> e@ == x),
{
    match std::path::Path::new(path).extension() {
        Some(ext) => ext.to_str().map(String::from),
        None => None,
    }
}

/// Whether the bytes `s` end with the bytes `suffix`.
pub open spec fn bytes_end_with(s: Seq<u8>, suffix: Seq<u8>) -> bool {
    suffix.len() <= s.len() && s.subrange(s.len() - suffix.len(), s.len() as int) == suffix
}

/// Whether an extension passes a filter: it ends with one of the suffixes
/// (as `str::ends_with` compares, byte by byte).
pub open spec fn extension_passes(extension: Seq<u8>, suffixes: Seq<Seq<u8>>) -> bool {
    exists|i: int| 0 <= i < suffixes.len() && bytes_end_with(extension, #[trigger] suffixes[i])
}

/// The UTF-8 bytes of each string of a sequence.
pub open spec fn bytes_of(suffixes: Seq<String>) -> Seq<Seq<u8>> {
    suffixes.map_values(|s: String| encode_utf8(s@))
}

fn ends_with(s: &str, suffix: &str) -> (b: bool)
    ensures
        b == bytes_end_with(encode_utf8(s@), encode_utf8(suffix@)),
{
    let sb = s.as_bytes();
    let tb = suffix.as_bytes();
    if tb.len() > sb.len() {
        return false;
    }
    let offset = sb.len() - tb.len();
    let mut i: usize = 0;
    while i < tb.len()
        invariant
            sb@ == encode_utf8(s@),
            tb@ == encode_utf8(suffix@),
            offset == sb@.len() - tb@.len(),
            tb@.len() <= sb@.len(),
            sb@.len() <= usize::MAX,
            i <= tb@.len(),
            forall|j: int| 0 <= j < i ==> sb@[offset + j] == tb@[j],
        decreases tb@.len() - i,
    {
        if sb[offset + i] != tb[i] {
            proof {
                assert(sb@.subrange(offset as int, sb@.len() as int)[i as int] != tb@[i as int]);
            }
            return false;
        }
        i = i + 1;
    }
    proof {
        assert(sb@.subrange(offset as int, sb@.len() as int) =~= tb@);
    }
    true
}

/// Whether the extension `extension` (empty if there is none) passes a filter of suffixes.
pub fn extension_matches(extension: &str, suffixes: &Vec<String>) -> (b: bool)
    ensures
        b == extension_passes(encode_utf8(extension@), bytes_of(suffixes@)),
{
    let n = suffixes.len();
    let mut i: usize = 0;
    while i < n
        invariant
            n == suffixes@.len(),
            i <= n,
            forall|j: int|
                0 <= j < i ==> !bytes_end_with(encode_utf8(extension@), #[trigger] bytes_of(suffixes@)[j]),
        decreases n - i,
    {
        if ends_with(extension, suffixes[i].as_str()) {
            assert(bytes_of(suffixes@)[i as int] == encode_utf8(suffixes@[i as int]@));
            return true;
        }
        i = i + 1;
    }
    false
}

/// Whether a file passes a filter: its extension (empty if it has none), as
/// `std::path::Path` finds it on this platform, ends with one of the suffixes, as
/// `extension_matches` says; for portable paths it is the one that `known_extension` gives.
/// Whatever the extension, no file passes an empty filter and every file passes a filter
/// with an empty suffix.
pub fn path_passes_filter(path: &str, suffixes: &Vec<String>) -> (b: bool)
    ensures
        known_extension(path@) matches Some(k) ==> b == extension_passes(
            encode_utf8(
                match k {
                    Some(e) => e,
                    None => Seq::empty(),
                },
            ),
            bytes_of(suffixes@),
        ),
        suffixes@.len() == 0 ==> !b,
        (exists|i: int| 0 <= i < suffixes@.len() && #[trigger] suffixes@[i]@.len() == 0) ==> b,
{
    let extension = match extension_of(path) {
        Some(e) => e,
        None => String::new(),
    };
    let b = extension_matches(extension.as_str(), suffixes);
    proof {
        if exists|i: int| 0 <= i < suffixes@.len() && #[trigger] suffixes@[i]@.len() == 0 {
            let i = choose|i: int| 0 <= i < suffixes@.len() && #[trigger] suffixes@[i]@.len() == 0;
            let x = encode_utf8(extension@);
            assert(bytes_of(suffixes@)[i] == encode_utf8(suffixes@[i]@));
            assert(bytes_of(suffixes@)[i] =~= Seq::<u8>::empty());
            assert(x.subrange(x.len() as int, x.len() as int) =~= Seq::<u8>::empty());
            assert(bytes_end_with(x, bytes_of(suffixes@)[i]));
        }
    }
    b
}

} // verus!
