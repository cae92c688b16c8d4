use vstd::prelude::*;
use reqwest::Error as HttpError;
use vstd::utf8::{decode_utf8, valid_utf8};

use crate::text::{has_prefix, starts_with};

verus! {

#[verifier::external_type_specification]
#[verifier::external_body]
pub struct ExClient(reqwest::Client);

#[verifier::external_type_specification]
#[verifier::external_body]
pub struct ExReqwestError(HttpError);

/// The scheme that every daemon address is reached through.
pub open spec fn https_scheme() -> Seq<char> {
    "https://"@
}

/// The host URL for a daemon address: the address itself when it already
/// starts with `https://`, else the address behind that scheme.
pub open spec fn host_url_of(address: Seq<char>) -> Seq<char> {
    if has_prefix(address, https_scheme()) {
        address
    } else {
        https_scheme() + address
    }
}

/// Computes the host URL of a daemon address.
pub fn host_url_for(address: &str) -> (url: String)
    ensures
        url@ == host_url_of(address@),
{
    let scheme = "https://";
    if !starts_with(address, scheme) {
        let mut url = String::from_str(scheme);
        url.append(address);
        url
    } else {
        String::from_str(address)
    }
}

/// Every host URL starts with `https://`.
pub proof fn lemma_host_url_has_scheme(address: Seq<char>)
    ensures
        has_prefix(host_url_of(address), https_scheme()),
{
    let s = https_scheme();
    if !has_prefix(address, s) {
        assert((s + address).subrange(0, s.len() as int) =~= s);
    }
}

/// An address that already starts with `https://` is its own host URL.
pub proof fn lemma_host_url_keeps_https_address(address: Seq<char>)
    requires
        has_prefix(address, https_scheme()),
    ensures
        host_url_of(address) == address,
{
}

/// The URL that errors are posted to starts with `https://`.
pub proof fn lemma_errors_url_has_scheme(address: Seq<char>)
    ensures
        has_prefix(host_url_of(address) + errors_path(), https_scheme()),
{
    lemma_host_url_has_scheme(address);
    let h = host_url_of(address);
    let s = https_scheme();
    assert((h + errors_path()).subrange(0, s.len() as int) =~= h.subrange(0, s.len() as int));
}

/// The host URL is the whole address, unchanged, with `https://` put in
/// front exactly when the address does not already start with it.
pub proof fn lemma_host_url_is_scheme_and_address(address: Seq<char>)
    ensures
        !has_prefix(address, "https://"@) ==> host_url_of(address) == "https://"@ + address,
        has_prefix(address, "https://"@) ==> host_url_of(address) == address,
        host_url_of(address).len() >= address.len(),
        host_url_of(address).subrange(
            host_url_of(address).len() - address.len(),
            host_url_of(address).len() as int,
        ) == address,
{
    let h = host_url_of(address);
    if !has_prefix(address, "https://"@) {
        assert(h.subrange(h.len() - address.len(), h.len() as int) =~= address);
    } else {
        assert(h.subrange(0, h.len() as int) =~= address);
    }
}

/// Normalising a host URL a second time changes nothing.
pub proof fn lemma_host_url_idempotent(address: Seq<char>)
    ensures
        host_url_of(host_url_of(address)) == host_url_of(address),
{
    lemma_host_url_has_scheme(address);
}

/// The path on the daemon under which application errors are stored.
pub open spec fn errors_path() -> Seq<char> {
    "/api/v1/runtime/errors"@
}

/// The index of the first `)` or line feed in `s` at or after `from`.
pub open spec fn first_stop(s: Seq<char>, from: int) -> Option<int>
    decreases s.len() - from,
{
    if from < 0 || from >= s.len() {
        None
    } else if s[from] == ')' || s[from] == '\n' {
        Some(from)
    } else {
        first_stop(s, from + 1)
    }
}

/// The text between the `(` at `i` and the first `)` after it, when no
/// line feed comes between them.
pub open spec fn group_at(s: Seq<char>, i: int) -> Option<Seq<char>> {
    if 0 <= i < s.len() && s[i] == '(' {
        match first_stop(s, i + 1) {
            Some(j) => if s[j] == ')' {
                Some(s.subrange(i + 1, j))
            } else {
                None
            },
            None => None,
        }
    } else {
        None
    }
}

/// The first group of `s` at or after `i`, in the sense of [`group_at`].
pub open spec fn first_group_from(s: Seq<char>, i: int) -> Option<Seq<char>>
    decreases s.len() - i,
{
    if i < 0 || i >= s.len() {
        None
    } else {
        match group_at(s, i) {
            Some(g) => Some(g),
            None => first_group_from(s, i + 1),
        }
    }
}

/// The container name in a gRPC error message: the text inside the first
/// pair of parentheses, which is what the pattern `\((.*?)\)` captures.
pub open spec fn container_name_in(message: Seq<char>) -> Option<Seq<char>> {
    first_group_from(message, 0)
}

/// Finds the container name in `error_message` with the regular expression
/// `\((.*?)\)` of the `regex` crate (`Regex::new`, `Regex::captures`,
/// `Captures::get`). By that crate's documented semantics (leftmost-first
/// match, lazy repetition, `.` matching any character but a line feed) the
/// first group is what [`container_name_in`] describes.
#[verifier::external_body]
fn extract_container_name(error_message: &str) -> (r: Option<String>)
    ensures
        match r {
            Some(name) => container_name_in(error_message@) == Some(name@),
            None => container_name_in(error_message@) is None,
        },
{
    let re = regex::Regex::new(r"\((.*?)\)").unwrap();
    re.captures(error_message).and_then(|caps| caps.get(1).map(|m| m.as_str().to_string()))
}

/// The text that `String::from_utf8_lossy` makes of `bytes`: invalid
/// sequences replaced by U+FFFD.
pub uninterp spec fn utf8_lossy(bytes: Seq<u8>) -> Seq<char>;

/// Decodes `bytes` by `String::from_utf8_lossy`; on valid UTF-8 that is
/// plain decoding. How invalid sequences are replaced is left to the name
/// [`utf8_lossy`].
#[verifier::external_body]
fn lossy_text(bytes: &[u8]) -> (r: String)
    ensures
        r@ == utf8_lossy(bytes@),
        valid_utf8(bytes@) ==> r@ == decode_utf8(bytes@),
{
    String::from_utf8_lossy(bytes).into_owned()
}

proof fn lemma_first_stop(s: Seq<char>, from: int)
    requires
        0 <= from,
    ensures
        first_stop(s, from) matches Some(j) ==> {
            &&& from <= j < s.len()
            &&& (s[j] == ')' || s[j] == '\n')
            &&& forall|k: int| from <= k < j ==> s[k] != ')' && s[k] != '\n'
        },
    decreases s.len() - from,
{
    if from < s.len() && !(s[from] == ')' || s[from] == '\n') {
        lemma_first_stop(s, from + 1);
    }
}

proof fn lemma_first_group_from(s: Seq<char>, i: int) -> (p: int)
    requires
        0 <= i,
    ensures
        first_group_from(s, i) is Some ==> i <= p && group_at(s, p) == first_group_from(s, i),
    decreases s.len() - i,
{
    if i >= s.len() {
        i
    } else if group_at(s, i) is Some {
        i
    } else {
        lemma_first_group_from(s, i + 1)
    }
}

/// A container name that is found stands in the message between `(` and
/// `)`, and holds neither `)` nor a line feed.
pub proof fn lemma_container_name_enclosed(message: Seq<char>)
    ensures
        container_name_in(message) matches Some(name) ==> {
            &&& exists|i: int|
                0 <= i && i + name.len() + 2 <= message.len() && #[trigger] message.subrange(
                    i,
                    i + name.len() + 2,
                ) == seq!['('] + name + seq![')']
            &&& forall|k: int| 0 <= k < name.len() ==> #[trigger] name[k] != ')' && name[k] != '\n'
        },
{
    if let Some(name) = container_name_in(message) {
        let p = lemma_first_group_from(message, 0);
        lemma_first_stop(message, p + 1);
        let j = first_stop(message, p + 1)->0;
        assert(name == message.subrange(p + 1, j));
        assert(message.subrange(p, p + name.len() + 2) =~= seq!['('] + name + seq![')']);
    }
}

/// An application error as it is reported to the daemon.
#[derive(Debug)]
pub struct RuntimeError {
    pub container_name: String,
    pub timestamp: String,
    pub code: String,
    pub message: String,
    pub details: String,
    pub mvtx_name: String,
    pub replica: String,
}

impl RuntimeError {
    /// The report of a gRPC error with the given message, code description
    /// and details, raised at `timestamp` in replica `replica` of vertex
    /// `mvtx_name`; none when the message names no container.
    pub fn from_status(
        message: &str,
        code: String,
        details: &[u8],
        timestamp: String,
        mvtx_name: String,
        replica: String,
    ) -> (r: Option<RuntimeError>)
        ensures
            r is None <==> container_name_in(message@) is None,
            r matches Some(e) ==> {
                &&& Some(e.container_name@) == container_name_in(message@)
                &&& e.timestamp@ == timestamp@
                &&& e.code@ == code@
                &&& e.message@ == message@
                &&& e.details@ == utf8_lossy(details@)
                &&& e.mvtx_name@ == mvtx_name@
                &&& e.replica@ == replica@
            },
    {
        match extract_container_name(message) {
            None => None,
            Some(container_name) => Some(
                RuntimeError {
                    container_name,
                    timestamp,
                    code,
                    message: String::from_str(message),
                    details: lossy_text(details),
                    mvtx_name,
                    replica,
                },
            ),
        }
    }
}

/// The TLS implementation an HTTP client speaks TLS with.
#[derive(Clone, Copy, Debug, PartialEq, Eq, Structural)]
pub enum TlsBackend {
    /// The `rustls` library.
    Rustls,
}

/// An HTTP client together with the settings it was built with.
pub struct DaemonClient {
    client: reqwest::Client,
    timeout_secs: u64,
    accept_invalid_certs: bool,
    tls_backend: TlsBackend,
}

impl DaemonClient {
    /// The request timeout in seconds, whether invalid server
    /// certificates are accepted, and the TLS implementation.
    pub closed spec fn settings(&self) -> (u64, bool, TlsBackend) {
        (self.timeout_secs, self.accept_invalid_certs, self.tls_backend)
    }

    /// The HTTP client itself.
    pub closed spec fn http_client(&self) -> reqwest::Client {
        self.client
    }

    /// The HTTP client that requests are sent with.
    pub fn client(&self) -> (c: &reqwest::Client)
        ensures
            *c == self.http_client(),
    {
        &self.client
    }

    /// The request timeout in seconds.
    pub fn timeout_secs(&self) -> (t: u64)
        ensures
            t == self.settings().0,
    {
        self.timeout_secs
    }

    /// Whether invalid server certificates are accepted.
    pub fn accepts_invalid_certs(&self) -> (a: bool)
        ensures
            a == self.settings().1,
    {
        self.accept_invalid_certs
    }

    /// The TLS implementation requests are sent with.
    pub fn tls_backend(&self) -> (b: TlsBackend)
        ensures
            b == self.settings().2,
    {
        self.tls_backend
    }
}

/// Builds an HTTP client by `reqwest::ClientBuilder` (`timeout`,
/// `use_rustls_tls`, `danger_accept_invalid_certs`, `build`) with the given
/// request timeout in seconds, rustls as TLS backend, and invalid
/// certificates accepted or not, and keeps those settings, rustls among
/// them, beside it.
/// Whether `build` succeeds is not stated: it depends on the process's
/// crypto provider and on proxy settings read from the environment.
#[verifier::external_body]
fn build_client(timeout_secs: u64, accept_invalid_certs: bool) -> (r: Result<DaemonClient, HttpError>)
    ensures
        r matches Ok(c) ==> c.settings() == (timeout_secs, accept_invalid_certs, TlsBackend::Rustls),
{
    let built = reqwest::Client::builder()
        .timeout(std::time::Duration::from_secs(timeout_secs))
        .use_rustls_tls()
        .danger_accept_invalid_certs(accept_invalid_certs)
        .build();
    match built {
        Ok(client) => Ok(DaemonClient { client, timeout_secs, accept_invalid_certs, tls_backend: TlsBackend::Rustls }),
        Err(e) => Err(e),
    }
}

/// A client of the daemon server that application errors are reported to.
pub struct Runtime {
    host_url: String,
    client: DaemonClient,
}

impl View for Runtime {
    type V = Seq<char>;

    /// The daemon's host URL.
    closed spec fn view(&self) -> Seq<char> {
        self.host_url@
    }
}

impl Runtime {
    /// The HTTP client that this runtime was built with.
    pub closed spec fn http_client(&self) -> reqwest::Client {
        self.client.http_client()
    }

    /// The settings of this runtime's HTTP client: its request timeout in
    /// seconds, whether it accepts invalid server certificates, and its TLS
    /// implementation.
    pub closed spec fn client_settings(&self) -> (u64, bool, TlsBackend) {
        self.client.settings()
    }

    /// A client of the daemon at `address`, reached over HTTPS through
    /// rustls with a one-second timeout and invalid certificates accepted.
    /// It fails only when the HTTP client cannot be built; no address is
    /// refused.
    pub fn new(address: &str) -> (r: Result<Runtime, HttpError>)
        ensures
            r matches Ok(rt) ==> rt@ == host_url_of(address@) && rt.client_settings() == (1u64, true, TlsBackend::Rustls),
    {
        let client = build_client(1, true)?;
        Ok(Runtime::with_client(address, client))
    }

    /// A client of the daemon at `address` that sends its requests with
    /// `client`; it accepts every address.
    pub fn with_client(address: &str, client: DaemonClient) -> (rt: Runtime)
        ensures
            rt@ == host_url_of(address@),
            rt.http_client() == client.http_client(),
            rt.client_settings() == client.settings(),
    {
        let host_url = host_url_for(address);
        Runtime { host_url, client }
    }

    /// The URL that application errors are posted to.
    pub fn errors_url(&self) -> (url: String)
        ensures
            url@ == self@ + errors_path(),
    {
        let mut url = self.host_url.clone();
        url.append("/api/v1/runtime/errors");
        url
    }

    /// The HTTP client that reports are sent with.
    pub fn client(&self) -> (c: &reqwest::Client)
        ensures
            *c == self.http_client(),
    {
        self.client.client()
    }

    /// The request timeout of this runtime's HTTP client, in seconds.
    pub fn client_timeout_secs(&self) -> (t: u64)
        ensures
            t == self.client_settings().0,
    {
        self.client.timeout_secs()
    }

    /// Whether this runtime's HTTP client accepts invalid server certificates.
    pub fn client_accepts_invalid_certs(&self) -> (a: bool)
        ensures
            a == self.client_settings().1,
    {
        self.client.accepts_invalid_certs()
    }

    /// The TLS implementation of this runtime's HTTP client.
    pub fn client_tls_backend(&self) -> (b: TlsBackend)
        ensures
            b == self.client_settings().2,
    {
        self.client.tls_backend()
    }
}

} // verus!
