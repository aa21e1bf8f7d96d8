//! Object names: the run's time partition, then the base name, four hyphens,
//! the content identifier and, where there is one, a dot and the extension.

use crate::text::{lemma_split_append, lemma_split_pieces, split};
use vstd::prelude::*;
use vstd::string::StringExecFns;

verus! {

/// The separator between the levels of an object name.
pub open spec fn separator() -> char {
    '/'
}

/// The mark between base name and content identifier.
pub open spec fn id_mark() -> Seq<char> {
    seq!['-', '-', '-', '-']
}

/// The last level of an object name.
pub open spec fn leaf_name(base_name: Seq<char>, content_id: Seq<char>, extension: Seq<char>) -> Seq<
    char,
> {
    if extension.len() == 0 {
        base_name + id_mark() + content_id
    } else {
        base_name + id_mark() + content_id + seq!['.'] + extension
    }
}

/// The whole object name.
pub open spec fn blob_key(
    run_timestamp: Seq<char>,
    base_name: Seq<char>,
    content_id: Seq<char>,
    extension: Seq<char>,
) -> Seq<char> {
    run_timestamp + seq![separator()] + leaf_name(base_name, content_id, extension)
}

/// Builds the name under which an item is stored.
pub fn blob_name(run_timestamp: &str, blob_base_name: &str, content_id: &str, extension: &str) -> (key:
    String)
    ensures
        key@ == blob_key(run_timestamp@, blob_base_name@, content_id@, extension@),
{
    proof {
        reveal_strlit("/");
        reveal_strlit("----");
        reveal_strlit(".");
    }
    let mut key = run_timestamp.to_owned();
    key.append("/");
    key.append(blob_base_name);
    key.append("----");
    key.append(content_id);
    if !extension.is_empty() {
        key.append(".");
        key.append(extension);
    }
    proof {
        assert("/"@ =~= seq![separator()]);
        assert("----"@ =~= id_mark());
        assert("."@ =~= seq!['.']);
        assert(key@ =~= blob_key(run_timestamp@, blob_base_name@, content_id@, extension@));
    }
    key
}

/// Where base name, identifier and extension hold no separator, splitting an
/// object name on the separator gives the levels of the time partition
/// followed by the leaf, which is never empty; and where no level of the
/// partition is empty, no level of the name is.
pub proof fn lemma_blob_key_levels(
    run_timestamp: Seq<char>,
    base_name: Seq<char>,
    content_id: Seq<char>,
    extension: Seq<char>,
)
    requires
        !base_name.contains(separator()),
        !content_id.contains(separator()),
        !extension.contains(separator()),
    ensures
        split(blob_key(run_timestamp, base_name, content_id, extension), separator()) == split(
            run_timestamp,
            separator(),
        ).push(leaf_name(base_name, content_id, extension)),
        leaf_name(base_name, content_id, extension).len() >= 4,
        (forall|k: int|
            0 <= k < split(run_timestamp, separator()).len() ==> (#[trigger] split(
                run_timestamp,
                separator(),
            )[k]).len() > 0) ==> (forall|k: int|
            0 <= k < split(
                blob_key(run_timestamp, base_name, content_id, extension),
                separator(),
            ).len() ==> (#[trigger] split(
                blob_key(run_timestamp, base_name, content_id, extension),
                separator(),
            )[k]).len() > 0),
{
    let leaf = leaf_name(base_name, content_id, extension);
    if leaf.contains(separator()) {
        let k = choose|k: int| 0 <= k < leaf.len() && leaf[k] == separator();
        let b = base_name.len() as int;
        let c = content_id.len() as int;
        if k < b {
            assert(base_name[k] == separator());
        } else if k < b + 4 {
            assert(leaf[k] == id_mark()[k - b]);
        } else if k < b + 4 + c {
            assert(content_id[k - b - 4] == separator());
        } else if k == b + 4 + c {
            assert(leaf[k] == '.');
        } else {
            assert(extension[k - b - 5 - c] == separator());
        }
    }
    lemma_split_append(run_timestamp, separator(), leaf);
    lemma_split_pieces(run_timestamp, separator());
}

} // verus!
