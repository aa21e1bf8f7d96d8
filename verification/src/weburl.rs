//! Public addresses of stored objects, built with the `url` crate.

use crate::context::{PublicHost, RunContext};
use crate::error::ErrorKind;
use crate::naming::separator;
use crate::text::{join, lemma_join_split, lemma_split_pieces, split, split_text};
use vstd::prelude::*;
use vstd::string::StringExecFns;

verus! {

#[verifier::external_type_specification]
#[verifier::external_body]
pub struct ExUrl(url::Url);

#[verifier::external_type_specification]
#[verifier::external_body]
pub struct ExParseError(url::ParseError);

/// The serialization of a URL, as `url::Url::as_str` gives it.
pub uninterp spec fn url_text(u: url::Url) -> Seq<char>;

/// What `url::Url::parse` makes of a text: the serialization of the URL it
/// returns, or nothing where it refuses the text.
pub uninterp spec fn parsed_url(input: Seq<char>) -> Option<Seq<char>>;

/// The path of the URL with the given serialization, as `url::Url::path`
/// gives it.
pub uninterp spec fn url_path(text: Seq<char>) -> Seq<char>;

/// The serialization after `url::PathSegmentsMut::push` has appended a
/// segment to the URL with the given serialization, or nothing where the URL
/// has no path to append to.
pub uninterp spec fn url_with_segment(text: Seq<char>, segment: Seq<char>) -> Option<Seq<char>>;

/// Calls `url::Url::parse`. Trusted: whether the text is accepted, and the
/// URL made of it, depend on the text alone.
#[verifier::external_body]
pub(crate) fn parse_url(input: &str) -> (r: Result<url::Url, url::ParseError>)
    ensures
        match r {
            Ok(u) => parsed_url(input@) == Some(url_text(u)),
            Err(_) => parsed_url(input@) is None,
        },
{
    url::Url::parse(input)
}

/// Calls `url::Url::as_str`. Trusted: the text returned is the URL's
/// serialization.
#[verifier::external_body]
pub(crate) fn url_to_text(u: &url::Url) -> (text: String)
    ensures
        text@ == url_text(*u),
{
    u.as_str().to_string()
}

/// Calls `url::Url::path`. Trusted: the path depends on the URL's
/// serialization alone.
#[verifier::external_body]
pub(crate) fn url_path_of(u: &url::Url) -> (path: String)
    ensures
        path@ == url_path(url_text(*u)),
{
    u.path().to_string()
}

/// The size of a text in bytes.
pub open spec fn byte_len(text: Seq<char>) -> nat {
    vstd::utf8::encode_utf8(text).len()
}

/// Whether the URL with serialization `text` stays within the four
/// gibibytes that the URL library can hold when `segment` is appended to it:
/// appending adds at most two separators and three bytes for each byte of
/// the segment.
pub open spec fn fits(text: Seq<char>, segment: Seq<char>) -> bool {
    byte_len(text) + 3 * byte_len(segment) + 2 <= u32::MAX
}

/// Calls `url::Url::path_segments_mut` and, where that gives access to the
/// path, `url::PathSegmentsMut::push`. Trusted: whether the URL has a path to
/// append to, and its serialization afterwards, depend on its serialization
/// before and on the segment alone; a URL without such a path is left as it
/// was. The call panics where the URL outgrows four gibibytes, which the
/// precondition excludes.
#[verifier::external_body]
fn url_push_segment(u: &mut url::Url, segment: &str) -> (pushed: bool)
    requires
        fits(url_text(*old(u)), segment@),
    ensures
        match url_with_segment(url_text(*old(u)), segment@) {
            Some(text) => pushed && url_text(*final(u)) == text,
            None => !pushed && url_text(*final(u)) == url_text(*old(u)),
        },
{
    match u.path_segments_mut() {
        Ok(mut segments) => {
            segments.push(segment);
            true
        },
        Err(()) => false,
    }
}

/// The domain under which a storage account serves its objects.
pub open spec fn storage_domain() -> Seq<char> {
    "blob.core.windows.net"@
}

/// The address of a host without any path: plain HTTP for a host that the
/// operator configured, HTTPS under the storage domain for an account.
pub open spec fn base_address(host: PublicHost) -> Seq<char> {
    match host {
        PublicHost::Vanity(name) => "http://"@ + name@,
        PublicHost::Account(name) => "https://"@ + name@ + "."@ + storage_domain(),
    }
}

/// The serialization after `segment` has been appended to the URL with
/// serialization `text`, or nothing where the URL has no path to append to
/// or would outgrow what the URL library can hold.
pub open spec fn appended(text: Seq<char>, segment: Seq<char>) -> Option<Seq<char>> {
    if fits(text, segment) {
        url_with_segment(text, segment)
    } else {
        None
    }
}

/// The serialization after the segments have been appended one by one, in
/// order, or nothing where one of them could not be appended.
pub open spec fn with_segments(text: Seq<char>, segments: Seq<Seq<char>>) -> Option<Seq<char>>
    decreases segments.len(),
{
    if segments.len() == 0 {
        Some(text)
    } else {
        match with_segments(text, segments.drop_last()) {
            Some(before) => appended(before, segments.last()),
            None => None,
        }
    }
}

/// The address of `container` under the host: the host's address parsed as
/// a URL, then the container appended as a segment. Nothing where the host's
/// address is no URL with a path, or where the address would outgrow what
/// the URL library can hold.
pub open spec fn container_url(host: PublicHost, container: Seq<char>) -> Option<Seq<char>> {
    match parsed_url(base_address(host)) {
        Some(base) => appended(base, container),
        None => None,
    }
}

/// The public address of the object `key` in `container`: the container's
/// address, then each level of the key appended as a segment of its own.
/// Nothing where there is no address of the container or where a level
/// cannot be appended.
pub open spec fn public_url(host: PublicHost, container: Seq<char>, key: Seq<char>) -> Option<
    Seq<char>,
> {
    match container_url(host, container) {
        Some(rooted) => with_segments(rooted, split(key, separator())),
        None => None,
    }
}

/// Once a segment cannot be appended, appending more does not help.
pub proof fn lemma_with_segments_stuck(text: Seq<char>, segments: Seq<Seq<char>>, n: int)
    requires
        0 <= n <= segments.len(),
        with_segments(text, segments.take(n)) is None,
    ensures
        with_segments(text, segments) is None,
    decreases segments.len() - n,
{
    if n < segments.len() {
        assert(segments.take(n + 1).drop_last() == segments.take(n));
        lemma_with_segments_stuck(text, segments, n + 1);
    } else {
        assert(segments.take(n) == segments);
    }
}

/// Whether the URL library appends `segment` to the URL with serialization
/// `text` as it is written: a separator and the segment, nothing rewritten.
pub open spec fn appended_verbatim(text: Seq<char>, segment: Seq<char>) -> bool {
    appended(text, segment) == Some(text + seq![separator()] + segment)
}

/// The serialization `text` followed, for each segment, by a separator and
/// the segment as it is written.
pub open spec fn followed_by(text: Seq<char>, segments: Seq<Seq<char>>) -> Seq<char> {
    if segments.len() == 0 {
        text
    } else {
        text + seq![separator()] + join(segments, separator())
    }
}

/// Whether the URL library appends each of the segments as it is written
/// when they are appended in order to the URL with serialization `text`.
pub open spec fn all_appended_verbatim(text: Seq<char>, segments: Seq<Seq<char>>) -> bool
    decreases segments.len(),
{
    segments.len() == 0 || (all_appended_verbatim(text, segments.drop_last()) && appended_verbatim(
        followed_by(text, segments.drop_last()),
        segments.last(),
    ))
}

/// Segments that are each appended as written give the serialization
/// followed by all of them.
pub proof fn lemma_with_segments_verbatim(text: Seq<char>, segments: Seq<Seq<char>>)
    requires
        all_appended_verbatim(text, segments),
    ensures
        with_segments(text, segments) == Some(followed_by(text, segments)),
    decreases segments.len(),
{
    if segments.len() > 0 {
        let init = segments.drop_last();
        lemma_with_segments_verbatim(text, init);
        if init.len() == 0 {
            assert(join(segments, separator()) == segments.last());
        } else {
            assert(followed_by(text, init) + seq![separator()] + segments.last() =~= followed_by(
                text,
                segments,
            ));
        }
    }
}

/// The address leads back to the key. Where the URL library appends every
/// level of the key as it is written, the address is the container's address
/// followed by a separator and the key itself; so what follows the
/// container's address, split on the separator, is the key split on the
/// separator.
pub proof fn lemma_url_round_trip(host: PublicHost, container: Seq<char>, key: Seq<char>)
    ensures
        match container_url(host, container) {
            Some(rooted) => all_appended_verbatim(rooted, split(key, separator())) ==> {
                &&& public_url(host, container, key) == Some(rooted + seq![separator()] + key)
                &&& split(
                    (rooted + seq![separator()] + key).skip(rooted.len() as int + 1),
                    separator(),
                ) == split(key, separator())
            },
            None => public_url(host, container, key) is None,
        },
{
    if let Some(rooted) = container_url(host, container) {
        let levels = split(key, separator());
        if all_appended_verbatim(rooted, levels) {
            lemma_with_segments_verbatim(rooted, levels);
            lemma_split_pieces(key, separator());
            lemma_join_split(key, separator());
            assert((rooted + seq![separator()] + key).skip(rooted.len() as int + 1) =~= key);
        }
    }
}

/// Writes the address of a host without any path.
pub fn base_address_of(host: &PublicHost) -> (address: String)
    ensures
        address@ == base_address(*host),
{
    match host {
        PublicHost::Vanity(name) => {
            let mut address = "http://".to_owned();
            address.append(name.as_str());
            address
        },
        PublicHost::Account(name) => {
            let mut address = "https://".to_owned();
            address.append(name.as_str());
            address.append(".");
            address.append("blob.core.windows.net");
            address
        },
    }
}

/// Appends a segment to the URL, unless the URL would outgrow what the URL
/// library can hold, and reports whether it was appended.
fn append_segment(u: &mut url::Url, segment: &str) -> (pushed: bool)
    ensures
        match appended(url_text(*old(u)), segment@) {
            Some(text) => pushed && url_text(*final(u)) == text,
            None => !pushed,
        },
{
    let text = url_to_text(u);
    let size = text.as_str().as_bytes().len();
    let added = segment.as_bytes().len();
    let limit = u32::MAX as usize - 2;
    if size <= limit && added <= (limit - size) / 3 {
        url_push_segment(u, segment)
    } else {
        false
    }
}

/// Appends the segments to the URL one by one, in order, and reports whether
/// all of them could be appended.
fn push_segments(u: &mut url::Url, segments: &Vec<String>) -> (pushed: bool)
    ensures
        match with_segments(url_text(*old(u)), segments.deep_view()) {
            Some(text) => pushed && url_text(*final(u)) == text,
            None => !pushed,
        },
{
    let ghost start = url_text(*u);
    let ghost all = segments.deep_view();
    let mut i: usize = 0;
    while i < segments.len()
        invariant
            i <= segments.len(),
            all == segments.deep_view(),
            start == url_text(*old(u)),
            with_segments(start, all.take(i as int)) == Some(url_text(*u)),
        decreases segments.len() - i,
    {
        proof {
            assert(all.take(i + 1).drop_last() == all.take(i as int));
            assert(all.take(i + 1).last() == segments@[i as int]@);
        }
        if !append_segment(u, segments[i].as_str()) {
            proof {
                lemma_with_segments_stuck(start, all, i + 1);
            }
            return false;
        }
        i += 1;
    }
    proof {
        assert(all.take(i as int) == all);
    }
    true
}

/// Makes the URL of the container under the host, if there is one.
fn container_address(host: &PublicHost, container_name: &str) -> (r: Option<url::Url>)
    ensures
        match r {
            Some(u) => container_url(*host, container_name@) == Some(url_text(u)),
            None => container_url(*host, container_name@) is None,
        },
{
    let base = base_address_of(host);
    match parse_url(base.as_str()) {
        Ok(mut u) => {
            if append_segment(&mut u, container_name) {
                Some(u)
            } else {
                None
            }
        },
        Err(_) => None,
    }
}

/// Checks that the container has an address under the host.
pub fn check_host(host: &PublicHost, container_name: &str) -> (ok: bool)
    ensures
        ok == container_url(*host, container_name@) is Some,
{
    container_address(host, container_name).is_some()
}

/// Builds the public address of the object `key` in the container
/// `container_name`. A host whose address is no URL with a path, or an
/// address that would outgrow what the URL library can hold, is reported as
/// unusable configuration.
pub fn build_url(key: &str, container_name: &str, run_context: &RunContext) -> (r: Result<
    String,
    ErrorKind,
>)
    ensures
        match r {
            Ok(address) => public_url(run_context.host, container_name@, key@) == Some(address@),
            Err(e) => public_url(run_context.host, container_name@, key@) is None && e
                == ErrorKind::ConfigurationError,
        },
{
    match container_address(&run_context.host, container_name) {
        Some(mut u) => {
            let levels = split_text(key, '/');
            if !push_segments(&mut u, &levels) {
                return Err(ErrorKind::ConfigurationError);
            }
            Ok(url_to_text(&u))
        },
        None => Err(ErrorKind::ConfigurationError),
    }
}

} // verus!
