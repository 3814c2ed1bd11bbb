//! Content resolution: which of three mutually exclusive sources feeds the
//! window. A live remote address is taken verbatim; a local development
//! directory must hold the well-known entry document; the embedded-server
//! mode turns an allocated port into a scheme-prefixed address; the bundled
//! mode wraps a document baked in at build time. Reading files and probing
//! ports is the host's job: the host hands the facts in, and every decision
//! made from them is here.

use vstd::prelude::*;
use vstd::string::StrSliceExecFns;
use vstd::string::StringExecFns;

use crate::port::PortPolicy;
use crate::port::ProbeOutcome;
use crate::port::dec_str;
use crate::port::setup_port;
use crate::strutil::has_substring;
use crate::strutil::starts_with;
use crate::strutil::str_starts_with;

verus! {

/// The resolved origin the window displays: a live remote address, an address
/// served by the embedded asset server, or a complete inline document.
pub enum ContentSource {
    RemoteUrl(String),
    LocalServerUrl(String),
    InlineDocument(String),
}

/// A fatal, pre-window resolution failure: the process must stop before any
/// window is created.
pub enum ResolveError {
    /// The configured development directory lacks the entry document.
    MissingEntryDocument { dev_dir: String },
    /// No usable port could be determined for the embedded server.
    InvalidPort,
}

/// The address (or inline markup) the dispatcher navigates to when the splash
/// screen is closed.
pub open spec fn spec_content_href(c: ContentSource) -> Seq<char> {
    match c {
        ContentSource::RemoteUrl(u) => u@,
        ContentSource::LocalServerUrl(u) => u@,
        ContentSource::InlineDocument(d) => d@,
    }
}

/// The string a resolved content source navigates to.
pub fn content_href(c: &ContentSource) -> (r: &String)
    ensures
        r@ == spec_content_href(*c),
{
    match c {
        ContentSource::RemoteUrl(u) => u,
        ContentSource::LocalServerUrl(u) => u,
        ContentSource::InlineDocument(d) => d,
    }
}

/// The address the embedded asset server must bind and serve, present
/// exactly when the resolved content is served locally.
pub fn server_url_of(c: &ContentSource) -> (r: Option<String>)
    ensures
        match *c {
            ContentSource::LocalServerUrl(u) => r matches Some(s) && s@ == u@,
            _ => r is None,
        },
{
    match c {
        ContentSource::LocalServerUrl(u) => Some(u.clone()),
        _ => None,
    }
}

/// The operator-facing message of a fatal resolution failure.
pub open spec fn spec_resolve_error_message(e: ResolveError) -> Seq<char> {
    match e {
        ResolveError::MissingEntryDocument { dev_dir } => "Couldn't find 'index.tauri.html' inside "@
            + dev_dir@ + "; did you forget to run 'tauri dev'?"@,
        ResolveError::InvalidPort => "unable to determine a usable URL"@,
    }
}

impl ResolveError {
    /// Renders the failure for the operator, naming the missing precondition.
    pub fn message(&self) -> (r: String)
        ensures
            r@ == spec_resolve_error_message(*self),
    {
        match self {
            ResolveError::MissingEntryDocument { dev_dir } => {
                let mut m = String::from_str("Couldn't find 'index.tauri.html' inside ");
                m.append(dev_dir.as_str());
                m.append("; did you forget to run 'tauri dev'?");
                m
            },
            ResolveError::InvalidPort => String::from_str("unable to determine a usable URL"),
        }
    }
}

/// The server address built from a host and a port text: `host:port`, given
/// an `http://` prefix unless the text already carries a scheme.
pub open spec fn spec_server_url(host: Seq<char>, port: Seq<char>) -> Seq<char> {
    let base = host + ":"@ + port;
    if starts_with(base, "http://"@) || starts_with(base, "https://"@) {
        base
    } else {
        "http://"@ + base
    }
}

/// Builds the embedded server's address from the configured host and the
/// allocated port, normalizing to ensure a scheme prefix.
pub fn setup_server_url(host: &str, port: String) -> (url: String)
    ensures
        url@ == spec_server_url(host@, port@),
{
    let mut base = String::from_str(host);
    base.append(":");
    base.append(port.as_str());
    if str_starts_with(base.as_str(), "http://") || str_starts_with(base.as_str(), "https://") {
        base
    } else {
        let mut prefixed = String::from_str("http://");
        prefixed.append(base.as_str());
        prefixed
    }
}

/// For any host and port text, the server address carries the port text (as
/// a suffix, hence as a substring) and starts with `http://` or `https://`.
pub proof fn lemma_server_url_properties(host: Seq<char>, port: Seq<char>)
    ensures
        has_substring(spec_server_url(host, port), port),
        starts_with(spec_server_url(host, port), "http://"@) || starts_with(
            spec_server_url(host, port),
            "https://"@,
        ),
{
    reveal_strlit("http://");
    reveal_strlit("https://");
    reveal_strlit(":");
    let base = host + ":"@ + port;
    let url = spec_server_url(host, port);
    if starts_with(base, "http://"@) || starts_with(base, "https://"@) {
        assert(url == base);
    } else {
        assert(url == "http://"@ + base);
        assert(url.subrange(0, 7) =~= "http://"@);
    }
    let off = url.len() - port.len();
    assert(url.subrange(off as int, off as int + port.len() as int) =~= port);
    assert(has_substring(url, port));
}

/// Whether the configured development source path is a live network address
/// (it starts with `http`) rather than a local directory.
pub fn dev_path_is_remote(dev_path: &str) -> (r: bool)
    ensures
        r <==> starts_with(dev_path@, "http"@),
{
    str_starts_with(dev_path, "http")
}

/// A build-time content mode together with the external facts its resolution
/// needs: the entry document's contents if the development directory held it,
/// the port probe's answer, or the document baked into the binary.
pub enum BuildMode {
    /// Live-proxy mode: a remote address, or a local directory whose entry
    /// document the host tried to read (`None` when it is absent).
    Dev { dev_path: String, entry_document: Option<String> },
    /// Embedded-server mode: configured host, port policy, and what the
    /// host's availability probe reported.
    EmbeddedServer { host: String, policy: PortPolicy, probe: ProbeOutcome },
    /// Bundled-document mode: the document embedded at build time.
    NoServer { document: String },
}

/// Resolves exactly one content source for the session, or fails fatally
/// before any window exists.
pub fn setup_content(mode: BuildMode) -> (r: Result<ContentSource, ResolveError>)
    ensures
        match mode {
            BuildMode::Dev { dev_path, entry_document } => {
                &&& starts_with(dev_path@, "http"@) ==> (r matches Ok(ContentSource::RemoteUrl(u))
                    && u@ == dev_path@)
                &&& entry_document matches Some(doc) ==> (!starts_with(dev_path@, "http"@)
                    ==> (r matches Ok(ContentSource::InlineDocument(d)) && d@ == doc@))
                &&& !starts_with(dev_path@, "http"@) && entry_document is None ==> (r matches Err(
                    ResolveError::MissingEntryDocument { dev_dir },
                ) && dev_dir@ == dev_path@)
            },
            BuildMode::EmbeddedServer { host, policy, probe } => {
                &&& probe is Unavailable ==> (r matches Err(e) && e is InvalidPort)
                &&& probe matches ProbeOutcome::Available(p) ==> {
                    let portnum = match policy {
                        PortPolicy::Random => p,
                        PortPolicy::Fixed(n) => n,
                    };
                    r matches Ok(ContentSource::LocalServerUrl(u)) && u@ == spec_server_url(
                        host@,
                        dec_str(portnum as nat),
                    )
                }
            },
            BuildMode::NoServer { document } => r matches Ok(ContentSource::InlineDocument(d))
                && d@ == document@,
        },
{
    match mode {
        BuildMode::Dev { dev_path, entry_document } => {
            if dev_path_is_remote(dev_path.as_str()) {
                Ok(ContentSource::RemoteUrl(dev_path))
            } else {
                match entry_document {
                    Some(doc) => Ok(ContentSource::InlineDocument(doc)),
                    None => Err(ResolveError::MissingEntryDocument { dev_dir: dev_path }),
                }
            }
        },
        BuildMode::EmbeddedServer { host, policy, probe } => {
            let (port, valid) = setup_port(&policy, &probe);
            if valid {
                Ok(ContentSource::LocalServerUrl(setup_server_url(host.as_str(), port)))
            } else {
                Err(ResolveError::InvalidPort)
            }
        },
        BuildMode::NoServer { document } => Ok(ContentSource::InlineDocument(document)),
    }
}

} // verus!
