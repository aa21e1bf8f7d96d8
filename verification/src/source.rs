//! Where an item comes from: telling local paths from remote addresses, and
//! deriving base name and extension from a file name.

use crate::text::{
    chars_of, find_last, is_prefix, last_index_of, lemma_last_index_of, same_text, starts_with,
};
use vstd::prelude::*;

verus! {

/// The two kinds of input.
#[derive(Clone, Copy, Debug, PartialEq, Eq, Structural)]
pub enum SourceKind {
    /// A path in the local file system.
    Local,
    /// An address to fetch over HTTP or HTTPS.
    Remote,
}

/// Whether an input names a remote source: it does when it begins with the
/// HTTP or the HTTPS scheme.
pub open spec fn is_remote(token: Seq<char>) -> bool {
    is_prefix("http://"@, token) || is_prefix("https://"@, token)
}

/// The kind of source that an input names.
pub open spec fn kind_of(token: Seq<char>) -> SourceKind {
    if is_remote(token) {
        SourceKind::Remote
    } else {
        SourceKind::Local
    }
}

/// Tells a remote address from a local path.
pub fn classify(token: &str) -> (kind: SourceKind)
    ensures
        kind == kind_of(token@),
{
    if starts_with(token, "http://") || starts_with(token, "https://") {
        SourceKind::Remote
    } else {
        SourceKind::Local
    }
}

/// Whether `name` can name a file: it is not empty, holds no separator, and
/// is neither of the two names that stand for a directory itself and for its
/// parent.
pub open spec fn usable_file_name(name: Seq<char>) -> bool {
    name.len() > 0 && !name.contains('/') && name != seq!['.'] && name != seq!['.', '.']
}

/// Where a file name divides into stem and extension: at its last dot,
/// unless it has none or begins with its only one.
pub open spec fn extension_dot(name: Seq<char>) -> Option<int> {
    if last_index_of(name, '.') > 0 {
        Some(last_index_of(name, '.'))
    } else {
        None
    }
}

/// The base name of a file name: what stands before the dot that divides it,
/// or all of it where no dot does.
pub open spec fn stem_of(name: Seq<char>) -> Seq<char> {
    match extension_dot(name) {
        Some(i) => name.take(i),
        None => name,
    }
}

/// The extension of a file name: what follows the dot that divides it, or
/// nothing where no dot does.
pub open spec fn extension_of(name: Seq<char>) -> Seq<char> {
    match extension_dot(name) {
        Some(i) => name.skip(i + 1),
        None => Seq::<char>::empty(),
    }
}

/// The parts of a usable file name make it up again, the base name is not
/// empty, and neither part holds a separator.
pub proof fn lemma_file_name_parts(name: Seq<char>)
    requires
        usable_file_name(name),
    ensures
        stem_of(name).len() > 0,
        !stem_of(name).contains('/'),
        !extension_of(name).contains('/'),
        match extension_dot(name) {
            Some(_) => name == stem_of(name) + seq!['.'] + extension_of(name),
            None => name == stem_of(name),
        },
{
    lemma_last_index_of(name, '.');
    let stem = stem_of(name);
    let ext = extension_of(name);
    if stem.contains('/') {
        let k = choose|k: int| 0 <= k < stem.len() && stem[k] == '/';
        assert(name[k] == '/');
    }
    if ext.contains('/') {
        let k = choose|k: int| 0 <= k < ext.len() && ext[k] == '/';
        assert(name[last_index_of(name, '.') + 1 + k] == '/');
    }
    if let Some(i) = extension_dot(name) {
        assert(name =~= stem + seq!['.'] + ext);
    }
}

/// Checks that `name` can name a file.
pub fn check_file_name(name: &str) -> (ok: bool)
    ensures
        ok == usable_file_name(name@),
{
    proof {
        reveal_strlit(".");
        reveal_strlit("..");
        assert("."@ =~= seq!['.']);
        assert(".."@ =~= seq!['.', '.']);
    }
    if name.is_empty() || same_text(name, ".") || same_text(name, "..") {
        return false;
    }
    let chars = chars_of(name);
    proof {
        lemma_last_index_of(name@, '/');
    }
    find_last(&chars, '/').is_none()
}

/// Divides a file name into base name and extension.
pub fn split_file_name(name: &str) -> (parts: (String, String))
    ensures
        parts.0@ == stem_of(name@),
        parts.1@ == extension_of(name@),
{
    let chars = chars_of(name);
    let n = chars.len();
    match find_last(&chars, '.') {
        Some(i) if i > 0 => {
            proof {
                lemma_last_index_of(name@, '.');
            }
            let stem = name.substring_char(0, i).to_owned();
            let ext = name.substring_char(i + 1, n).to_owned();
            proof {
                assert(name@.subrange(0, i as int) == name@.take(i as int));
                assert(name@.subrange(i + 1, n as int) == name@.skip(i + 1));
            }
            (stem, ext)
        },
        _ => (name.to_owned(), String::new()),
    }
}

} // verus!
