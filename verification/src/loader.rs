//! Resolving an input to a source, and a source with what was read from it
//! to an item ready for upload.

use crate::error::ErrorKind;
use crate::mime::{
    get_mimetype_from_declaration, get_mimetype_from_extension, mime_for_declaration,
    mime_for_extension, DeclaredType,
};
use crate::naming::separator;
use crate::source::{
    check_file_name, classify, extension_of, is_remote, lemma_file_name_parts, split_file_name,
    stem_of, usable_file_name, SourceKind,
};
use crate::text::{lemma_split_pieces, split, split_text};
use crate::weburl::{parse_url, parsed_url, url_path, url_path_of, url_to_text};
use vstd::prelude::*;

verus! {

/// The model of a resolved input.
pub struct SourceModel {
    /// Whether to read a file or to fetch an address.
    pub kind: SourceKind,
    /// The path to read or the address to fetch.
    pub location: Seq<char>,
    /// The file name without its extension.
    pub base_name: Seq<char>,
    /// The extension without its dot; empty where the file name has none.
    pub extension: Seq<char>,
}

impl SourceModel {
    /// A source is well formed when its base name is not empty and neither
    /// base name nor extension holds a separator.
    pub open spec fn wf(self) -> bool {
        self.base_name.len() > 0 && !self.base_name.contains(separator())
            && !self.extension.contains(separator())
    }
}

/// An input resolved: where to read it, and how its object will be named.
#[derive(Debug)]
pub struct Source {
    /// Whether to read a file or to fetch an address.
    pub kind: SourceKind,
    /// The path to read, as it was given, or the address to fetch, as the
    /// URL library writes it.
    pub location: String,
    /// The file name without its extension.
    pub blob_base_name: String,
    /// The extension without its dot; empty where the file name has none.
    pub extension: String,
}

impl View for Source {
    type V = SourceModel;

    open spec fn view(&self) -> SourceModel {
        SourceModel {
            kind: self.kind,
            location: self.location@,
            base_name: self.blob_base_name@,
            extension: self.extension@,
        }
    }
}

/// The last level of a path: what follows its last separator, or all of it.
pub open spec fn last_level(path: Seq<char>) -> Seq<char> {
    split(path, separator()).last()
}

/// The error that refuses a source of the given kind for want of a file
/// name: a remote address without one is no address of a file, a local path
/// without one cannot be read.
pub open spec fn refusal(kind: SourceKind) -> ErrorKind {
    match kind {
        SourceKind::Remote => ErrorKind::InvalidUrl,
        SourceKind::Local => ErrorKind::IoError,
    }
}

/// The source of the given kind and location, named after the file name
/// found for it; a refusal where none was found or where it is unusable.
pub open spec fn resolution(kind: SourceKind, location: Seq<char>, name: Option<Seq<char>>) -> Result<
    SourceModel,
    ErrorKind,
> {
    match name {
        Some(n) => if usable_file_name(n) {
            Ok(SourceModel { kind, location, base_name: stem_of(n), extension: extension_of(n) })
        } else {
            Err(refusal(kind))
        },
        None => Err(refusal(kind)),
    }
}

/// Whether what came back is what the model says: the source it describes,
/// or the error it gives.
pub open spec fn agrees(r: Result<Source, ErrorKind>, model: Result<SourceModel, ErrorKind>) -> bool {
    match r {
        Ok(source) => model == Ok::<SourceModel, ErrorKind>(source@),
        Err(e) => model == Err::<SourceModel, ErrorKind>(e),
    }
}

/// The text of a name, if there is one.
pub open spec fn text_of(name: Option<String>) -> Option<Seq<char>> {
    match name {
        Some(n) => Some(n@),
        None => None,
    }
}

/// Whether `text` is a file name and nothing else on every platform: a
/// usable file name without a backslash or a colon.
pub open spec fn plain_name(text: Seq<char>) -> bool {
    usable_file_name(text) && !text.contains('\\') && !text.contains(':')
}

/// Whether `r` is a resolution of the input `token`. A remote input is
/// resolved to the address that the URL library makes of it, named after the
/// last level of that address's path, and refused as an invalid URL where
/// the library does not accept it. A local input is resolved to the path as
/// given: a plain name is named after itself, any other path after the file
/// name that the platform finds in it, whatever that is.
pub open spec fn resolves_to(token: Seq<char>, r: Result<Source, ErrorKind>) -> bool {
    if is_remote(token) {
        match parsed_url(token) {
            Some(address) => agrees(
                r,
                resolution(SourceKind::Remote, address, Some(last_level(url_path(address)))),
            ),
            None => r == Err::<Source, ErrorKind>(ErrorKind::InvalidUrl),
        }
    } else if plain_name(token) {
        agrees(r, resolution(SourceKind::Local, token, Some(token)))
    } else {
        exists|name: Option<Seq<char>>|
            agrees(r, #[trigger] resolution(SourceKind::Local, token, name))
    }
}

/// A resolution that gives a source gives a well-formed one.
pub proof fn lemma_resolution_wf(kind: SourceKind, location: Seq<char>, name: Option<Seq<char>>)
    ensures
        match resolution(kind, location, name) {
            Ok(source) => source.wf() && source.kind == kind && source.location == location,
            Err(e) => e == refusal(kind),
        },
{
    if let Some(n) = name {
        if usable_file_name(n) {
            lemma_file_name_parts(n);
        }
    }
}

/// Calls `std::path::Path::file_name` on the text taken as a path. What
/// counts as the final component of a path depends on the platform, and
/// callers check what comes back. Trusted, on every platform: a plain name
/// is its own final component, since it holds none of the characters that
/// divide a path into components or mark a prefix, and is neither of the
/// two names that are components of another kind.
#[verifier::external_body]
fn path_file_name(path: &str) -> (name: Option<String>)
    ensures
        text_of(name) == Some(path@) || !plain_name(path@),
{
    match std::path::Path::new(path).file_name() {
        Some(name) => match name.to_str() {
            Some(text) => Some(text.to_string()),
            None => None,
        },
        None => None,
    }
}

/// Names a source after the file name found for it.
pub fn named_source(kind: SourceKind, location: String, name: Option<String>) -> (r: Result<
    Source,
    ErrorKind,
>)
    ensures
        agrees(r, resolution(kind, location@, text_of(name))),
{
    let refused = match kind {
        SourceKind::Remote => ErrorKind::InvalidUrl,
        SourceKind::Local => ErrorKind::IoError,
    };
    match name {
        Some(n) => {
            if check_file_name(n.as_str()) {
                let (blob_base_name, extension) = split_file_name(n.as_str());
                Ok(Source { kind, location, blob_base_name, extension })
            } else {
                Err(refused)
            }
        },
        None => Err(refused),
    }
}

/// Resolves a local path given the file name found in it.
pub fn resolve_local(token: String, name: Option<String>) -> (r: Result<Source, ErrorKind>)
    ensures
        agrees(r, resolution(SourceKind::Local, token@, text_of(name))),
{
    named_source(SourceKind::Local, token, name)
}

/// Resolves a remote address given its text as the URL library writes it,
/// and its path.
pub fn resolve_remote(address: String, path: &str) -> (r: Result<Source, ErrorKind>)
    ensures
        agrees(r, resolution(SourceKind::Remote, address@, Some(last_level(path@)))),
{
    let name = last_level_of(path);
    named_source(SourceKind::Remote, address, Some(name))
}

/// The last level of a path, as an owned text.
pub fn last_level_of(path: &str) -> (level: String)
    ensures
        level@ == last_level(path@),
{
    let mut levels = split_text(path, '/');
    proof {
        lemma_split_pieces(path@, separator());
        assert(levels.deep_view().last() == levels@.last()@);
    }
    match levels.pop() {
        Some(level) => level,
        None => String::new(),
    }
}

/// Resolves an input: tells whether it is a local path or a remote address,
/// has a remote address parsed, and names the source after the last level
/// of the address's path or after the file name that the platform finds in
/// the local path.
pub fn resolve(token: String) -> (r: Result<Source, ErrorKind>)
    ensures
        resolves_to(token@, r),
        r matches Ok(source) ==> source@.wf(),
{
    match classify(token.as_str()) {
        SourceKind::Remote => match parse_url(token.as_str()) {
            Ok(u) => {
                let path = url_path_of(&u);
                let address = url_to_text(&u);
                proof {
                    lemma_resolution_wf(SourceKind::Remote, address@, Some(last_level(path@)));
                }
                resolve_remote(address, path.as_str())
            },
            Err(_) => Err(ErrorKind::InvalidUrl),
        },
        SourceKind::Local => {
            let name = path_file_name(token.as_str());
            proof {
                lemma_resolution_wf(SourceKind::Local, token@, text_of(name));
            }
            resolve_local(token, name)
        },
    }
}

/// The model of an item ready for upload.
pub struct UploadItem {
    /// The file name without its extension.
    pub base_name: Seq<char>,
    /// The extension without its dot; empty where there is none.
    pub extension: Seq<char>,
    /// The content type.
    pub mime_type: Seq<char>,
    /// The path or address that the item was read from.
    pub origin: Seq<char>,
    /// The content.
    pub bytes: Seq<u8>,
}

impl UploadItem {
    /// An item is well formed when its base name is not empty and neither
    /// base name nor extension holds a separator.
    pub open spec fn wf(self) -> bool {
        self.base_name.len() > 0 && !self.base_name.contains(separator())
            && !self.extension.contains(separator())
    }
}

/// An item ready for upload: its content, and what names and describes it.
#[derive(Debug)]
pub struct UploadData {
    /// The file name without its extension.
    pub blob_base_name: String,
    /// The extension without its dot; empty where there is none.
    pub extension: String,
    /// The content type.
    pub mime_type: String,
    /// The path or address that the item was read from.
    pub source: String,
    /// The content.
    pub bytes: Vec<u8>,
}

impl View for UploadData {
    type V = UploadItem;

    open spec fn view(&self) -> UploadItem {
        UploadItem {
            base_name: self.blob_base_name@,
            extension: self.extension@,
            mime_type: self.mime_type@,
            origin: self.source@,
            bytes: self.bytes@,
        }
    }
}

/// What a fetch brought back.
#[derive(Debug)]
pub struct FetchResponse {
    /// The status code of the response.
    pub status: u16,
    /// What the response said about the type of its body.
    pub declared: DeclaredType,
    /// The body; of no account where the status is not a success.
    pub body: Vec<u8>,
}

/// Whether a status code reports success: the codes from 200 to 299 do.
pub open spec fn success_status(status: u16) -> bool {
    200 <= status < 300
}

/// The item that a local source and the content of its file make: the
/// content type follows from the extension.
pub open spec fn local_item(source: SourceModel, bytes: Seq<u8>) -> UploadItem {
    UploadItem {
        base_name: source.base_name,
        extension: source.extension,
        mime_type: mime_for_extension(source.extension),
        origin: source.location,
        bytes,
    }
}

/// The item that a remote source and the response to its fetch make, if the
/// fetch succeeded: the content type is the one that the server declared.
pub open spec fn remote_item(source: SourceModel, response: FetchResponse) -> Option<UploadItem> {
    if success_status(response.status) {
        Some(
            UploadItem {
                base_name: source.base_name,
                extension: source.extension,
                mime_type: mime_for_declaration(response.declared),
                origin: source.location,
                bytes: response.body@,
            },
        )
    } else {
        None
    }
}

/// Whether a status code reports success.
pub fn is_success_status(status: u16) -> (success: bool)
    ensures
        success == success_status(status),
{
    200 <= status && status < 300
}

/// Makes the item of a local source from the content of its file.
pub fn load_local(source: Source, bytes: Vec<u8>) -> (item: UploadData)
    ensures
        item@ == local_item(source@, bytes@),
        source@.wf() ==> item@.wf(),
{
    let mime_type = get_mimetype_from_extension(source.extension.as_str()).to_owned();
    UploadData {
        blob_base_name: source.blob_base_name,
        extension: source.extension,
        mime_type,
        source: source.location,
        bytes,
    }
}

/// Makes the item of a remote source from the response to its fetch. A
/// response without success is a fetch error.
pub fn fetched_item(source: Source, response: FetchResponse) -> (r: Result<UploadData, ErrorKind>)
    ensures
        match r {
            Ok(data) => remote_item(source@, response) == Some(data@),
            Err(e) => remote_item(source@, response) is None && e == ErrorKind::FetchError,
        },
        source@.wf() && r is Ok ==> r.unwrap()@.wf(),
{
    if is_success_status(response.status) {
        let mime_type = get_mimetype_from_declaration(response.declared);
        Ok(
            UploadData {
                blob_base_name: source.blob_base_name,
                extension: source.extension,
                mime_type,
                source: source.location,
                bytes: response.body,
            },
        )
    } else {
        Err(ErrorKind::FetchError)
    }
}

/// Makes the item of a remote source from the response to its fetch, if
/// there is one to make: a fetch error is not passed on, its input is
/// skipped.
pub fn load_remote(source: Source, response: FetchResponse) -> (item: Option<UploadData>)
    ensures
        match item {
            Some(data) => remote_item(source@, response) == Some(data@),
            None => remote_item(source@, response) is None,
        },
        source@.wf() && item is Some ==> item.unwrap()@.wf(),
{
    match fetched_item(source, response) {
        Ok(data) => Some(data),
        Err(_) => None,
    }
}

} // verus!
