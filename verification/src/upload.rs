//! What is written to the storage service for an item.

use crate::context::{is_time_partition, RunContext};
use crate::ident::{
    content_id, content_identifier, lemma_content_id_faithful, lemma_encoding_shape, md5_digest,
};
use crate::loader::{UploadData, UploadItem};
use crate::naming::{blob_key, blob_name, leaf_name, lemma_blob_key_levels, separator};
use crate::text::split;
use vstd::prelude::*;

verus! {

/// The metadata entry under which an object records where it came from.
pub open spec fn origin_entry() -> Seq<char> {
    "source"@
}

/// One write to the storage service: the whole content in a single request.
#[derive(Debug)]
pub struct UploadRequest {
    /// The container written to.
    pub container: String,
    /// The name of the object.
    pub key: String,
    /// The content type stored with the object.
    pub content_type: String,
    /// The MD5 digest of the content, for the service to check what arrived.
    pub content_md5: [u8; 16],
    /// The metadata stored with the object, as pairs of name and value.
    pub metadata: Vec<(String, String)>,
    /// The content.
    pub body: Vec<u8>,
}

/// The name under which an item is stored in a run that has the given time
/// partition.
pub open spec fn key_of(run_timestamp: Seq<char>, item: UploadItem) -> Seq<char> {
    blob_key(run_timestamp, item.base_name, content_id(item.bytes), item.extension)
}

/// Whether a request is the write of the given item into the given container
/// under the given time partition: named by content, typed as the item,
/// carrying the digest of the content and one metadata entry that records
/// the item's origin.
pub open spec fn is_upload_of(
    request: UploadRequest,
    container: Seq<char>,
    run_timestamp: Seq<char>,
    item: UploadItem,
) -> bool {
    &&& request.container@ == container
    &&& request.key@ == key_of(run_timestamp, item)
    &&& request.content_type@ == item.mime_type
    &&& request.content_md5@ == md5_digest(item.bytes)
    &&& request.metadata@.len() == 1
    &&& request.metadata@[0].0@ == origin_entry()
    &&& request.metadata@[0].1@ == item.origin
    &&& request.body@ == item.bytes
}

/// Plans the write of an item.
pub fn plan_upload(run_context: &RunContext, item: UploadData) -> (request: UploadRequest)
    ensures
        is_upload_of(request, run_context.container_name@, run_context.run_timestamp@, item@),
{
    let id = content_identifier(item.bytes.as_slice());
    let key = blob_name(
        run_context.run_timestamp.as_str(),
        item.blob_base_name.as_str(),
        id.text.as_str(),
        item.extension.as_str(),
    );
    let mut metadata: Vec<(String, String)> = Vec::new();
    metadata.push(("source".to_owned(), item.source));
    UploadRequest {
        container: run_context.container_name.clone(),
        key,
        content_type: item.mime_type,
        content_md5: id.digest,
        metadata,
        body: item.bytes,
    }
}

/// The name of a well-formed item under a time partition has the levels of
/// the partition followed by one more, the leaf made of base name,
/// identifier and extension; no level is empty.
pub proof fn lemma_key_levels(run_timestamp: Seq<char>, item: UploadItem)
    requires
        is_time_partition(run_timestamp),
        item.wf(),
    ensures
        split(key_of(run_timestamp, item), separator()) == split(run_timestamp, separator()).push(
            leaf_name(item.base_name, content_id(item.bytes), item.extension),
        ),
        forall|k: int|
            0 <= k < split(key_of(run_timestamp, item), separator()).len() ==> (#[trigger] split(
                key_of(run_timestamp, item),
                separator(),
            )[k]).len() > 0,
{
    lemma_encoding_shape(md5_digest(item.bytes));
    lemma_blob_key_levels(run_timestamp, item.base_name, content_id(item.bytes), item.extension);
}

/// Under one time partition, items of the same base name and extension
/// share their name exactly when they share their digest: content that
/// differs in its digest is never stored under the name of other content.
pub proof fn lemma_key_tells_content(run_timestamp: Seq<char>, first: UploadItem, second: UploadItem)
    requires
        first.base_name == second.base_name,
        first.extension == second.extension,
    ensures
        key_of(run_timestamp, first) == key_of(run_timestamp, second) <==> md5_digest(first.bytes)
            == md5_digest(second.bytes),
{
    lemma_content_id_faithful(first.bytes, second.bytes);
    let a = content_id(first.bytes);
    let b = content_id(second.bytes);
    if key_of(run_timestamp, first) == key_of(run_timestamp, second) {
        let head = run_timestamp + seq![separator()] + first.base_name + crate::naming::id_mark();
        let tail = if first.extension.len() == 0 {
            Seq::<char>::empty()
        } else {
            seq!['.'] + first.extension
        };
        assert(key_of(run_timestamp, first) =~= head + a + tail);
        assert(key_of(run_timestamp, second) =~= head + b + tail);
        assert(a.len() == b.len()) by {
            assert((head + a + tail).len() == (head + b + tail).len());
        }
        assert forall|i: int| 0 <= i < a.len() implies a[i] == b[i] by {
            assert((head + a + tail)[head.len() + i] == a[i]);
            assert((head + b + tail)[head.len() + i] == b[i]);
        }
        assert(a =~= b);
    }
}

} // verus!
