use vstd::prelude::*;
use crate::version::HttpVersion;
use vstd::utf8::encode_utf8;

verus! {

/// URI schemes the client dials.
#[derive(Clone, Copy, Debug, PartialEq, Eq, Structural)]
pub enum Scheme {
    Http,
    Https,
    Ws,
    Wss,
}

pub open spec fn spec_requires_tls(s: Scheme) -> bool {
    s == Scheme::Https || s == Scheme::Wss
}

impl Scheme {
    /// Whether a target of this scheme must be reached over TLS.
    pub fn requires_tls(&self) -> (r: bool)
        ensures
            r == spec_requires_tls(*self),
    {
        match self {
            Scheme::Https | Scheme::Wss => true,
            Scheme::Http | Scheme::Ws => false,
        }
    }

    /// The port used when the uri names none.
    pub fn default_port(&self) -> (r: u16)
        ensures
            r == (if spec_requires_tls(*self) { 443u16 } else { 80u16 }),
    {
        if self.requires_tls() {
            443
        } else {
            80
        }
    }
}

/// A host as it may be written into a request: not empty, and without
/// spaces or control bytes.
pub open spec fn valid_host(h: Seq<char>) -> bool {
    &&& encode_utf8(h).len() > 0
    &&& forall|i: int| 0 <= i < encode_utf8(h).len() ==> #[trigger] encode_utf8(h)[i] > 32 && encode_utf8(h)[i] != 127
}

/// Whether `h` may be written into a request.
pub fn is_valid_host(h: &String) -> (r: bool)
    ensures
        r == valid_host(h@),
{
    let b = h.as_str().as_bytes();
    if b.len() == 0 {
        return false;
    }
    let mut i: usize = 0;
    while i < b.len()
        invariant
            i <= b@.len(),
            b@ == encode_utf8(h@),
            forall|j: int| 0 <= j < i ==> #[trigger] b@[j] > 32 && b@[j] != 127,
        decreases b@.len() - i,
    {
        if b[i] <= 32 || b[i] == 127 {
            return false;
        }
        i = i + 1;
    }
    true
}

/// A host and a port.
#[derive(Clone, Debug)]
pub struct Authority {
    pub host: String,
    pub port: u16,
}

/// What the pipeline reads of a request: where it goes and the version it
/// declares. `uri` is the request's uri as text, used for error context.
#[derive(Clone, Debug)]
pub struct RequestHead {
    pub uri: String,
    pub scheme: Scheme,
    pub host: String,
    pub port: Option<u16>,
    pub version: HttpVersion,
}

/// TLS parameters: whether the server certificate is validated, and the
/// protocols offered for negotiation, in order of preference.
#[derive(Clone, Debug)]
pub struct TlsClientConfig {
    pub verify_server: bool,
    pub alpn: Vec<HttpVersion>,
}

impl TlsClientConfig {
    /// The parameters used when the client has none of its own: the server
    /// is validated and HTTP/2 then HTTP/1.1 are offered.
    pub fn http_auto() -> (r: TlsClientConfig)
        ensures
            r.verify_server,
            r.alpn@ == seq![HttpVersion::Http2, HttpVersion::Http11],
    {
        let mut alpn: Vec<HttpVersion> = Vec::new();
        alpn.push(HttpVersion::Http2);
        alpn.push(HttpVersion::Http11);
        TlsClientConfig { verify_server: true, alpn }
    }
}

/// An HTTP client: its configuration is set up front and only read by calls.
#[derive(Clone, Debug)]
pub struct HttpClient {
    pub tls_config: Option<TlsClientConfig>,
}

impl HttpClient {
    /// A client without TLS parameters of its own.
    pub fn new() -> (r: HttpClient)
        ensures
            r.tls_config is None,
    {
        HttpClient { tls_config: None }
    }

    /// Sets the TLS parameters of this client, and hands the client back
    /// for further changes.
    pub fn set_tls_config(&mut self, cfg: TlsClientConfig) -> (r: &mut Self)
        ensures
            r.tls_config == Some(cfg),
            *final(self) == *final(r),
    {
        self.tls_config = Some(cfg);
        self
    }

    /// This client with the TLS parameters set.
    pub fn with_tls_config(self, cfg: TlsClientConfig) -> (r: HttpClient)
        ensures
            r.tls_config == Some(cfg),
    {
        let mut c = self;
        c.tls_config = Some(cfg);
        c
    }

    /// This client with the TLS parameters set or cleared.
    pub fn maybe_with_tls_config(self, cfg: Option<TlsClientConfig>) -> (r: HttpClient)
        ensures
            r.tls_config == cfg,
    {
        let mut c = self;
        c.tls_config = cfg;
        c
    }
}

} // verus!
