//! File-system locations: joining paths, asking whether a path exists, and
//! the user's home and configuration directories.
use vstd::prelude::*;

verus! {

/// No character from position `i` on is a drive marker (`:`).
pub open spec fn free_of_drive_markers(s: Seq<char>, i: int) -> bool
    decreases s.len() - i,
{
    if i < 0 || i >= s.len() {
        true
    } else {
        s[i] != ':' && free_of_drive_markers(s, i + 1)
    }
}

/// No character from position `i` on is a path separator (`/` or `\`).
pub open spec fn free_of_separators(s: Seq<char>, i: int) -> bool
    decreases s.len() - i,
{
    if i < 0 || i >= s.len() {
        true
    } else {
        s[i] != '/' && s[i] != '\\' && free_of_separators(s, i + 1)
    }
}

/// `s` ends with `c`.
pub open spec fn ends_with(s: Seq<char>, c: Seq<char>) -> bool {
    c.len() <= s.len() && s.subrange(s.len() - c.len(), s.len() as int) == c
}

/// `c` is the last component of the relative path `rel`: a non-empty name
/// other than `.` and `..`, without separators, ending `rel` and standing
/// after a separator or at its start.
pub open spec fn is_last_component(rel: Seq<char>, c: Seq<char>) -> bool {
    &&& c.len() > 0
    &&& c != seq!['.']
    &&& c != seq!['.', '.']
    &&& free_of_separators(c, 0)
    &&& ends_with(rel, c)
    &&& (c.len() == rel.len() || rel[rel.len() - c.len() - 1] == '/' || rel[rel.len() - c.len()
        - 1] == '\\')
}

/// A relative path: not empty, not starting with a separator, and without
/// a drive marker, so that joining it appends it.
pub open spec fn is_relative_text(s: Seq<char>) -> bool {
    &&& s.len() > 0
    &&& s[0] != '/'
    &&& s[0] != '\\'
    &&& free_of_drive_markers(s, 0)
}

/// The start of a verbatim Windows path, `\\?\`.
pub open spec fn verbatim_start() -> Seq<char> {
    seq!['\\', '\\', '?', '\\']
}

/// `b` is not empty and its first characters (up to four) are those of
/// `\\?\`: it is, or could grow into, a verbatim Windows path, which
/// joining rebuilds from its components.
pub open spec fn looks_verbatim(b: Seq<char>) -> bool {
    &&& b.len() > 0
    &&& forall|i: int| 0 <= i < b.len() && i < 4 ==> b[i] == verbatim_start()[i]
}

/// Joining may put no separator after `base`: it is empty, or ends in a
/// separator or in a drive marker.
pub open spec fn separator_optional(base: Seq<char>) -> bool {
    base.len() == 0 || base.last() == '/' || base.last() == '\\' || base.last() == ':'
}

/// `r` is `base` joined with the relative path `rel`: `base`, then one
/// separator (`/` or `\`) or none, then `rel`; none only where `base` is
/// empty or ends in a separator or a drive marker, and a separator only
/// where `base` is not empty and does not end in `/`.
pub open spec fn joined(base: Seq<char>, rel: Seq<char>, r: Seq<char>) -> bool {
    ||| r == base + rel && separator_optional(base)
    ||| r == base + seq!['/'] + rel && base.len() > 0 && base.last() != '/'
    ||| r == base + seq!['\\'] + rel && base.len() > 0 && base.last() != '/'
}

/// Calls `std::path::Path::join` on `base` and a relative path. For a base
/// that is not verbatim, the platform's `PathBuf::push` appends `rel`,
/// after the main separator (`/`, or `\` on Windows) unless `base` is
/// empty, ends in a separator, or is a bare drive such as `C:`. Which
/// separator is used depends on the platform and is not stated. A verbatim
/// base is rebuilt from its components with `rel`'s components pushed
/// after it, so of every base it is stated only that the result ends with
/// `rel`'s last component.
#[verifier::external_body]
pub(crate) fn path_join(base: &str, rel: &str) -> (r: String)
    requires
        is_relative_text(rel@),
    ensures
        forall|c: Seq<char>| #[trigger] is_last_component(rel@, c) ==> ends_with(r@, c),
        !looks_verbatim(base@) ==> joined(base@, rel@, r@),
        !looks_verbatim(base@) && (base@.len() == 0 || base@.last() == '/') ==> r@ == base@ + rel@,
{
    std::path::Path::new(base).join(rel).to_string_lossy().into_owned()
}

/// A path joined from a base that does not look verbatim does not look
/// verbatim either.
pub proof fn lemma_joined_not_verbatim(base: Seq<char>, rel: Seq<char>, r: Seq<char>)
    requires
        !looks_verbatim(base),
        is_relative_text(rel),
        joined(base, rel, r),
    ensures
        !looks_verbatim(r),
{
    if base.len() == 0 {
        assert(r == rel);
        assert(r[0] != verbatim_start()[0]);
    } else {
        let i = choose|i: int| 0 <= i < base.len() && i < 4 && base[i] != verbatim_start()[i];
        assert(r[i] == base[i]);
    }
}

/// Calls `std::path::Path::exists`. What is on disk decides the answer, so
/// nothing is stated of it.
#[verifier::external_body]
pub(crate) fn path_exists(path: &str) -> bool {
    std::path::Path::new(path).exists()
}

/// Calls `dirs::home_dir`, the user's home directory if the environment
/// gives one. It depends on the environment, so nothing is stated of it.
#[verifier::external_body]
pub(crate) fn home_dir() -> Option<String> {
    dirs::home_dir().map(|p| p.to_string_lossy().into_owned())
}

/// Calls `dirs::config_dir`, the user's configuration directory if the
/// environment gives one. It depends on the environment, so nothing is
/// stated of it.
#[verifier::external_body]
pub(crate) fn config_dir() -> Option<String> {
    dirs::config_dir().map(|p| p.to_string_lossy().into_owned())
}

} // verus!
