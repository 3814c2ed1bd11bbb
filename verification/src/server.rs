//! The embedded asset server's request logic: rewriting the root request to
//! the well-known entry document, and stripping the scheme from the resolved
//! address before it is bound. The accept loop itself is the host's job; it
//! feeds each request path through here.

use vstd::prelude::*;
use vstd::string::StrSliceExecFns;
use vstd::string::StringExecFns;

verus! {

/// The asset path a request path maps to: the root request is rewritten to
/// the well-known entry document, every other path passes through verbatim.
pub open spec fn spec_mapped_path(url: Seq<char>) -> Seq<char> {
    if url == "/"@ {
        "/index.tauri.html"@
    } else {
        url
    }
}

/// Maps an incoming request path to the asset path to serve.
pub fn map_request_path(url: &str) -> (r: String)
    ensures
        r@ == spec_mapped_path(url@),
{
    if crate::strutil::str_eq(url, "/") {
        String::from_str("/index.tauri.html")
    } else {
        String::from_str(url)
    }
}

/// The address with a leading `http://` or `https://` removed, as the
/// listener wants it.
pub open spec fn spec_stripped_scheme(url: Seq<char>) -> Seq<char> {
    if crate::strutil::starts_with(url, "http://"@) {
        url.subrange("http://"@.len() as int, url.len() as int)
    } else if crate::strutil::starts_with(url, "https://"@) {
        url.subrange("https://"@.len() as int, url.len() as int)
    } else {
        url
    }
}

/// Strips a leading scheme from the resolved server address, yielding the
/// bare `host:port` text the listener binds to.
pub fn strip_scheme(url: &str) -> (r: String)
    ensures
        r@ == spec_stripped_scheme(url@),
{
    proof {
        reveal_strlit("http://");
        reveal_strlit("https://");
    }
    if crate::strutil::str_starts_with(url, "http://") {
        let rest = url.substring_char(7, url.unicode_len());
        String::from_str(rest)
    } else if crate::strutil::str_starts_with(url, "https://") {
        let rest = url.substring_char(8, url.unicode_len());
        String::from_str(rest)
    } else {
        String::from_str(url)
    }
}

} // verus!
