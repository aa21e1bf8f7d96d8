//! Content types: from a file extension for local files, from the server's
//! declaration for fetched ones.

use crate::text::same_text;
use vstd::prelude::*;

verus! {

/// The content type that goes with a lowercase extension, written without
/// its dot. Anything unrecognised, the empty extension included, is reported
/// as generic binary data.
pub open spec fn mime_for_extension(extension: Seq<char>) -> Seq<char> {
    if extension == "jpg"@ || extension == "jpeg"@ {
        "image/jpeg"@
    } else if extension == "png"@ {
        "image/png"@
    } else if extension == "svg"@ {
        "image/svg+xml"@
    } else if extension == "mp4"@ {
        "video/mp4"@
    } else if extension == "pdf"@ {
        "application/pdf"@
    } else if extension == "gz"@ {
        "application/gzip"@
    } else if extension == "zip"@ {
        "application/zip"@
    } else if extension == "rar"@ {
        "application/vnd.rar"@
    } else {
        "application/octet-stream"@
    }
}

/// What a server said about the type of the body it sent.
#[derive(Debug)]
pub enum DeclaredType {
    /// The response carried no content type.
    Absent,
    /// The response carried one that is not readable as text.
    Unreadable,
    /// The response carried this content type.
    Text(String),
}

/// The content type of a fetched body: the server's declaration where it
/// made a readable one, generic binary data otherwise.
pub open spec fn mime_for_declaration(declared: DeclaredType) -> Seq<char> {
    match declared {
        DeclaredType::Text(t) => t@,
        _ => "application/binary"@,
    }
}

/// The table of recognised extensions, entry by entry, and the fallback for
/// the empty extension.
pub proof fn lemma_mime_table()
    ensures
        mime_for_extension("jpg"@) == "image/jpeg"@,
        mime_for_extension("jpeg"@) == "image/jpeg"@,
        mime_for_extension("png"@) == "image/png"@,
        mime_for_extension("svg"@) == "image/svg+xml"@,
        mime_for_extension("mp4"@) == "video/mp4"@,
        mime_for_extension("pdf"@) == "application/pdf"@,
        mime_for_extension("gz"@) == "application/gzip"@,
        mime_for_extension("zip"@) == "application/zip"@,
        mime_for_extension("rar"@) == "application/vnd.rar"@,
        mime_for_extension(""@) == "application/octet-stream"@,
{
    reveal_strlit("jpg");
    reveal_strlit("jpeg");
    reveal_strlit("png");
    reveal_strlit("svg");
    reveal_strlit("mp4");
    reveal_strlit("pdf");
    reveal_strlit("gz");
    reveal_strlit("zip");
    reveal_strlit("rar");
    reveal_strlit("");
    assert("jpg"@.len() == 3 && "jpg"@[0] == 'j');
    assert("jpeg"@.len() == 4);
    assert("png"@.len() == 3 && "png"@[0] == 'p' && "png"@[1] == 'n');
    assert("svg"@.len() == 3 && "svg"@[0] == 's');
    assert("mp4"@.len() == 3 && "mp4"@[0] == 'm');
    assert("pdf"@.len() == 3 && "pdf"@[0] == 'p' && "pdf"@[1] == 'd');
    assert("gz"@.len() == 2);
    assert("zip"@.len() == 3 && "zip"@[0] == 'z');
    assert("rar"@.len() == 3 && "rar"@[0] == 'r');
    assert(""@.len() == 0);
}

/// Resolves the content type of a local file from its extension.
pub fn get_mimetype_from_extension(extension: &str) -> (mime: &'static str)
    ensures
        mime@ == mime_for_extension(extension@),
{
    if same_text(extension, "jpg") || same_text(extension, "jpeg") {
        "image/jpeg"
    } else if same_text(extension, "png") {
        "image/png"
    } else if same_text(extension, "svg") {
        "image/svg+xml"
    } else if same_text(extension, "mp4") {
        "video/mp4"
    } else if same_text(extension, "pdf") {
        "application/pdf"
    } else if same_text(extension, "gz") {
        "application/gzip"
    } else if same_text(extension, "zip") {
        "application/zip"
    } else if same_text(extension, "rar") {
        "application/vnd.rar"
    } else {
        "application/octet-stream"
    }
}

/// Resolves the content type of a fetched body from the server's declaration.
pub fn get_mimetype_from_declaration(declared: DeclaredType) -> (mime: String)
    ensures
        mime@ == mime_for_declaration(declared),
{
    match declared {
        DeclaredType::Text(t) => t,
        _ => "application/binary".to_owned(),
    }
}

} // verus!
