use vstd::prelude::*;
use crate::client::{is_valid_host, spec_requires_tls, valid_host, Authority, HttpClient, RequestHead, Scheme, TlsClientConfig};
use crate::error::{ClientError, ConfigIssue, ConnectFailure, ErrorContext, ErrorKind, RequestFailure, TransportFailure};
use crate::version::{connection_version, normalize_version, spec_connection_version, HttpVersion, ResponseHead};

verus! {

/// Where a call stands in the connector pipeline.
#[derive(Clone, Copy, Debug, PartialEq, Eq, Structural)]
pub enum Stage {
    Transport,
    Tunnel,
    Tls,
    Serving,
    Finished,
}

/// What the outside world reports back to a call.
#[derive(Clone, Copy, Debug, PartialEq, Eq, Structural)]
pub enum Event {
    TransportConnected,
    TransportFailed(TransportFailure),
    TunnelStatus(u16),
    TunnelMalformed,
    TlsEstablished(Option<HttpVersion>),
    TlsFailed(ConnectFailure),
    Responded(ResponseHead),
    ExchangeFailed(RequestFailure),
    Cancelled,
}

/// What a call asks the outside world to do next.
#[derive(Clone, Debug)]
pub enum Action {
    /// Open a byte stream to this address.
    OpenTransport(Authority),
    /// Ask the proxy at the other end of the stream for a tunnel to this address.
    OpenTunnel(Authority),
    /// Run the TLS handshake over the stream, with the call's TLS parameters
    /// and its target host as server name.
    TlsHandshake,
    /// Hand the stream to an HTTP connection of this version and send the request.
    Serve(HttpVersion),
    /// Release the stream and hand this response to the caller.
    Complete(ResponseHead),
    /// Hand this error to the caller, releasing the stream if one is open.
    Abort { error: ClientError, release_transport: bool },
    /// The caller gave up: release the stream if one is open.
    Cancel { release_transport: bool },
    /// The event does not belong to the current stage: nothing to do.
    Nothing,
}

/// One call through the pipeline: what was planned for it and how far it got.
#[derive(Clone, Debug)]
pub struct Call {
    pub uri: String,
    pub scheme: Scheme,
    pub target: Authority,
    pub declared: HttpVersion,
    pub proxy: Option<Authority>,
    pub tls: Option<TlsClientConfig>,
    pub stage: Stage,
    pub transport_open: bool,
    pub tunnel_established: bool,
    pub tls_attempted: bool,
    pub tls_established: bool,
    pub negotiated: Option<HttpVersion>,
    pub served: bool,
}

/// `c` is the single piece of context "connecting to `uri`".
pub open spec fn is_connect_context(c: ErrorContext, uri: Seq<char>) -> bool {
    match c {
        ErrorContext::ConnectTo { uri: u } => u@ == uri,
        _ => false,
    }
}

/// `c` is the single piece of context "request failure for `uri`".
pub open spec fn is_request_context(c: ErrorContext, uri: Seq<char>) -> bool {
    match c {
        ErrorContext::RequestFor { uri: u } => u@ == uri,
        _ => false,
    }
}

/// `c` is the single piece of context "building the stack for `uri`".
pub open spec fn is_build_context(c: ErrorContext, uri: Seq<char>) -> bool {
    match c {
        ErrorContext::BuildFor { uri: u } => u@ == uri,
        _ => false,
    }
}

/// `a` aborts with a connect failure of kind `f`, the call's uri as context.
pub open spec fn is_connect_abort(a: Action, f: ConnectFailure, uri: Seq<char>, release: bool) -> bool {
    match a {
        Action::Abort { error, release_transport } => {
            &&& error.kind == ErrorKind::Connect(f)
            &&& error.context@.len() == 1
            &&& is_connect_context(error.context@[0], uri)
            &&& release_transport == release
        },
        _ => false,
    }
}

/// `a` aborts with a request failure of kind `f`, the call's uri as context.
pub open spec fn is_request_abort(a: Action, f: RequestFailure, uri: Seq<char>) -> bool {
    match a {
        Action::Abort { error, release_transport } => {
            &&& error.kind == ErrorKind::Request(f)
            &&& error.context@.len() == 1
            &&& is_request_context(error.context@[0], uri)
            &&& release_transport
        },
        _ => false,
    }
}

/// `e` is a configuration error of kind `i`, with the uri as context.
pub open spec fn is_config_error(e: ClientError, i: ConfigIssue, uri: Seq<char>) -> bool {
    &&& e.kind == ErrorKind::Configuration(i)
    &&& e.context@.len() == 1
    &&& is_build_context(e.context@[0], uri)
}

/// `n` keeps what was planned for `o`.
pub open spec fn same_plan(o: Call, n: Call) -> bool {
    &&& n.uri == o.uri
    &&& n.scheme == o.scheme
    &&& n.target == o.target
    &&& n.declared == o.declared
    &&& n.proxy == o.proxy
    &&& n.tls == o.tls
}

/// Once a channel to the origin is open (directly or through the tunnel):
/// a TLS handshake if the call needs TLS, else the request is served.
pub open spec fn channel_ready(n: Call, a: Action) -> bool {
    &&& n.transport_open
    &&& !n.tls_established
    &&& n.negotiated is None
    &&& !n.served
    &&& if n.tls is Some {
        &&& a is TlsHandshake
        &&& n.stage == Stage::Tls
        &&& n.tls_attempted
    } else {
        &&& a == Action::Serve(n.declared)
        &&& n.stage == Stage::Serving
        &&& !n.tls_attempted
    }
}

/// Whether `a` hands the call's stream back to be closed.
pub open spec fn releases_transport(a: Action) -> bool {
    match a {
        Action::Complete(_) => true,
        Action::Abort { error, release_transport } => release_transport,
        Action::Cancel { release_transport } => release_transport,
        _ => false,
    }
}

pub open spec fn is_success_status(s: u16) -> bool {
    200 <= s && s < 300
}

impl Call {
    /// The invariant of a call. Whatever the stage: TLS is planned exactly
    /// when the scheme needs it; a TLS handshake is only ever attempted when
    /// planned and, with a proxy, only once the tunnel is up; a served call
    /// went through TLS when it needed it; a finished call holds no stream.
    pub open spec fn wf(&self) -> bool {
        &&& (self.tls is Some) == spec_requires_tls(self.scheme)
        &&& self.tls matches Some(cfg) ==> cfg.alpn@.len() > 0
        &&& self.tls_attempted ==> self.tls is Some
        &&& self.tls_attempted && self.proxy is Some ==> self.tunnel_established
        &&& self.tunnel_established ==> self.proxy is Some
        &&& self.tls_established ==> self.tls_attempted
        &&& self.negotiated is Some ==> self.tls_established
        &&& self.served ==> self.stage == Stage::Finished
        &&& self.served && self.tls is Some ==> self.tls_established
        &&& match self.stage {
            Stage::Transport => !self.transport_open && !self.tunnel_established && !self.tls_attempted,
            Stage::Tunnel => self.proxy is Some && self.transport_open && !self.tunnel_established
                && !self.tls_attempted,
            Stage::Tls => self.transport_open && self.tls_attempted && !self.tls_established
                && self.negotiated is None,
            Stage::Serving => self.transport_open && (self.tls is Some) == self.tls_established
                && (self.proxy is Some ==> self.tunnel_established) && !self.served,
            Stage::Finished => !self.transport_open,
        }
    }
}

/// Whether `e` is one of the reports that stage `s` waits for.
pub open spec fn accepts(s: Stage, e: Event) -> bool {
    match s {
        Stage::Transport => e is TransportConnected || e is TransportFailed || e is Cancelled,
        Stage::Tunnel => e is TunnelStatus || e is TunnelMalformed || e is Cancelled,
        Stage::Tls => e is TlsEstablished || e is TlsFailed || e is Cancelled,
        Stage::Serving => e is Responded || e is ExchangeFailed || e is Cancelled,
        Stage::Finished => false,
    }
}

/// The offer that a call sends in its TLS handshake.
pub open spec fn spec_tls_plan(client_tls: Option<TlsClientConfig>) -> Seq<HttpVersion> {
    match client_tls {
        Some(cfg) => cfg.alpn@,
        None => seq![HttpVersion::Http2, HttpVersion::Http11],
    }
}

fn copy_authority(a: &Authority) -> (r: Authority)
    ensures
        r == *a,
{
    Authority { host: a.host.clone(), port: a.port }
}

fn copy_tls_config(c: &TlsClientConfig) -> (r: TlsClientConfig)
    ensures
        r.verify_server == c.verify_server,
        r.alpn@ == c.alpn@,
{
    let mut alpn: Vec<HttpVersion> = Vec::new();
    let mut i: usize = 0;
    while i < c.alpn.len()
        invariant
            i <= c.alpn@.len(),
            alpn@ == c.alpn@.subrange(0, i as int),
        decreases c.alpn@.len() - i,
    {
        alpn.push(c.alpn[i]);
        i = i + 1;
        assert(alpn@ =~= c.alpn@.subrange(0, i as int));
    }
    assert(alpn@ =~= c.alpn@);
    TlsClientConfig { verify_server: c.verify_server, alpn }
}

/// Whether `v` is among the offered protocols.
pub fn offers(alpn: &Vec<HttpVersion>, v: HttpVersion) -> (r: bool)
    ensures
        r == alpn@.contains(v),
{
    let mut i: usize = 0;
    while i < alpn.len()
        invariant
            i <= alpn@.len(),
            forall|j: int| 0 <= j < i ==> alpn@[j] != v,
        decreases alpn@.len() - i,
    {
        if alpn[i] == v {
            return true;
        }
        i = i + 1;
    }
    false
}

fn connect_abort(f: ConnectFailure, uri: &String, release: bool) -> (a: Action)
    ensures
        is_connect_abort(a, f, uri@, release),
{
    let error = ClientError::new(ErrorKind::Connect(f)).with_context(ErrorContext::ConnectTo { uri: uri.clone() });
    Action::Abort { error, release_transport: release }
}

impl HttpClient {
    /// Plans one call: the address to dial first (the proxy if there is one,
    /// else the target), and TLS with the client's parameters, or with the
    /// automatic ones, exactly when the scheme needs it. The client is only read.
    pub fn start_call(&self, req: &RequestHead, proxy: Option<Authority>) -> (r: Result<(Call, Action), ClientError>)
        ensures
            !valid_host(req.host@) ==> (r matches Err(e) && is_config_error(e, ConfigIssue::InvalidTargetHost, req.uri@)),
            valid_host(req.host@) && (proxy matches Some(p) && !valid_host(p.host@)) ==> (r matches Err(e)
                && is_config_error(e, ConfigIssue::InvalidProxyHost, req.uri@)),
            valid_host(req.host@) && !(proxy matches Some(p) && !valid_host(p.host@)) && spec_requires_tls(req.scheme)
                && spec_tls_plan(self.tls_config).len() == 0 ==> (r matches Err(e)
                && is_config_error(e, ConfigIssue::EmptyProtocolOffer, req.uri@)),
            r is Ok <==> valid_host(req.host@) && !(proxy matches Some(p) && !valid_host(p.host@))
                && (spec_requires_tls(req.scheme) ==> spec_tls_plan(self.tls_config).len() > 0),
            r matches Ok((c, a)) ==> {
                &&& c.wf()
                &&& c.stage == Stage::Transport
                &&& !c.served
                &&& c.uri == req.uri
                &&& c.scheme == req.scheme
                &&& c.declared == req.version
                &&& c.target.host == req.host
                &&& c.target.port == (match req.port {
                    Some(p) => p,
                    None => if spec_requires_tls(req.scheme) { 443u16 } else { 80u16 },
                })
                &&& c.proxy == proxy
                &&& (c.tls matches Some(cfg) ==> cfg.alpn@ == spec_tls_plan(self.tls_config) && cfg.verify_server == (
                    match self.tls_config {
                        Some(t) => t.verify_server,
                        None => true,
                    }))
                &&& c.negotiated is None
                &&& a == Action::OpenTransport(match proxy {
                    Some(p) => p,
                    None => c.target,
                })
            },
    {
        if !is_valid_host(&req.host) {
            return Err(ClientError::new(ErrorKind::Configuration(ConfigIssue::InvalidTargetHost))
                .with_context(ErrorContext::BuildFor { uri: req.uri.clone() }));
        }
        if let Some(p) = &proxy {
            if !is_valid_host(&p.host) {
                return Err(ClientError::new(ErrorKind::Configuration(ConfigIssue::InvalidProxyHost))
                    .with_context(ErrorContext::BuildFor { uri: req.uri.clone() }));
            }
        }
        let tls = if req.scheme.requires_tls() {
            let cfg = match &self.tls_config {
                Some(c) => copy_tls_config(c),
                None => TlsClientConfig::http_auto(),
            };
            if cfg.alpn.len() == 0 {
                return Err(ClientError::new(ErrorKind::Configuration(ConfigIssue::EmptyProtocolOffer))
                    .with_context(ErrorContext::BuildFor { uri: req.uri.clone() }));
            }
            Some(cfg)
        } else {
            None
        };
        let port = match req.port {
            Some(p) => p,
            None => req.scheme.default_port(),
        };
        let target = Authority { host: req.host.clone(), port };
        let first = match &proxy {
            Some(p) => copy_authority(p),
            None => copy_authority(&target),
        };
        let call = Call {
            uri: req.uri.clone(),
            scheme: req.scheme,
            target,
            declared: req.version,
            proxy,
            tls,
            stage: Stage::Transport,
            transport_open: false,
            tunnel_established: false,
            tls_attempted: false,
            tls_established: false,
            negotiated: None,
            served: false,
        };
        Ok((call, Action::OpenTransport(first)))
    }
}

impl Call {
    /// The stream reaches the origin: start TLS when planned, else serve.
    fn origin_reached(&mut self) -> (a: Action)
        requires
            old(self).tls_attempted == false,
            old(self).tls is Some ==> (old(self).tls matches Some(cfg) && cfg.alpn@.len() > 0),
        ensures
            same_plan(*old(self), *final(self)),
            final(self).tunnel_established == old(self).tunnel_established,
            final(self).transport_open,
            final(self).tls_established == false,
            final(self).negotiated is None,
            final(self).served == false,
            channel_ready(*final(self), a),
    {
        self.transport_open = true;
        self.tls_established = false;
        self.negotiated = None;
        self.served = false;
        if self.tls.is_some() {
            self.tls_attempted = true;
            self.stage = Stage::Tls;
            Action::TlsHandshake
        } else {
            self.stage = Stage::Serving;
            Action::Serve(self.declared)
        }
    }

    /// Takes one report from the outside world and decides what comes next.
    pub fn step(&mut self, e: Event) -> (a: Action)
        requires
            old(self).wf(),
        ensures
            final(self).wf(),
            same_plan(*old(self), *final(self)),
            !accepts(old(self).stage, e) ==> a is Nothing && *final(self) == *old(self),
            a matches Action::Complete(r) ==> r.version == final(self).declared && final(self).served,
            a is Complete && spec_requires_tls(final(self).scheme) ==> final(self).tls_established,
            !spec_requires_tls(final(self).scheme) ==> !final(self).tls_attempted,
            old(self).stage != Stage::Finished && final(self).stage == Stage::Finished ==> {
                &&& releases_transport(a) == old(self).transport_open
                &&& !final(self).transport_open
            },
            accepts(old(self).stage, e) ==> final(self).stage != old(self).stage,
            a is TlsHandshake ==> final(self).tls_attempted && (final(self).proxy is Some ==> final(self).tunnel_established),
            old(self).stage != Stage::Finished && e == Event::Cancelled ==> {
                &&& a == (Action::Cancel { release_transport: old(self).transport_open })
                &&& final(self).stage == Stage::Finished
                &&& !final(self).served
            },
            old(self).stage == Stage::Transport && e == Event::TransportConnected ==> match old(self).proxy {
                Some(_) => a == Action::OpenTunnel(old(self).target) && final(self).stage == Stage::Tunnel,
                None => channel_ready(*final(self), a),
            },
            old(self).stage == Stage::Transport ==> (e matches Event::TransportFailed(f) ==> {
                &&& is_connect_abort(a, if old(self).proxy is Some {
                    ConnectFailure::ProxyUnreachable { cause: f }
                } else {
                    ConnectFailure::Transport(f)
                },
                    old(self).uri@, false)
                &&& final(self).stage == Stage::Finished
            }),
            old(self).stage == Stage::Tunnel ==> (e matches Event::TunnelStatus(s) ==> if is_success_status(s) {
                final(self).tunnel_established && channel_ready(*final(self), a)
            } else {
                &&& is_connect_abort(a, ConnectFailure::ProxyRejected { status: s }, old(self).uri@, true)
                &&& final(self).stage == Stage::Finished
                &&& !final(self).tls_attempted
            }),
            old(self).stage == Stage::Tunnel && e == Event::TunnelMalformed ==> {
                &&& is_connect_abort(a, ConnectFailure::TunnelMalformed, old(self).uri@, true)
                &&& final(self).stage == Stage::Finished
                &&& !final(self).tls_attempted
            },
            old(self).stage == Stage::Tls ==> (e matches Event::TlsEstablished(v) ==> {
                if v matches Some(x) && !old(self).tls->Some_0.alpn@.contains(x) {
                    &&& is_connect_abort(a, ConnectFailure::UnsupportedProtocol, old(self).uri@, true)
                    &&& final(self).stage == Stage::Finished
                } else {
                    &&& a == Action::Serve(spec_connection_version(v, old(self).declared))
                    &&& final(self).stage == Stage::Serving
                    &&& final(self).tls_established
                    &&& final(self).negotiated == v
                }
            }),
            old(self).stage == Stage::Tls ==> (e matches Event::TlsFailed(f) ==> {
                &&& is_connect_abort(a, f, old(self).uri@, true)
                &&& final(self).stage == Stage::Finished
            }),
            old(self).stage == Stage::Serving ==> (e matches Event::Responded(r) ==> {
                &&& a == Action::Complete(ResponseHead { status: r.status, version: old(self).declared })
                &&& final(self).stage == Stage::Finished
                &&& final(self).served
            }),
            old(self).stage == Stage::Serving ==> (e matches Event::ExchangeFailed(f) ==> {
                &&& is_request_abort(a, f, old(self).uri@)
                &&& final(self).stage == Stage::Finished
                &&& !final(self).served
            }),
    {
        match (self.stage, e) {
            (Stage::Finished, _) => Action::Nothing,
            (_, Event::Cancelled) => {
                let release = self.transport_open;
                self.transport_open = false;
                self.stage = Stage::Finished;
                Action::Cancel { release_transport: release }
            },
            (Stage::Transport, Event::TransportConnected) => {
                if self.proxy.is_some() {
                    self.transport_open = true;
                    self.stage = Stage::Tunnel;
                    Action::OpenTunnel(copy_authority(&self.target))
                } else {
                    self.origin_reached()
                }
            },
            (Stage::Transport, Event::TransportFailed(f)) => {
                let kind = if self.proxy.is_some() {
                    ConnectFailure::ProxyUnreachable { cause: f }
                } else {
                    ConnectFailure::Transport(f)
                };
                self.stage = Stage::Finished;
                connect_abort(kind, &self.uri, false)
            },
            (Stage::Tunnel, Event::TunnelStatus(s)) => {
                if 200 <= s && s < 300 {
                    self.tunnel_established = true;
                    self.origin_reached()
                } else {
                    self.transport_open = false;
                    self.stage = Stage::Finished;
                    connect_abort(ConnectFailure::ProxyRejected { status: s }, &self.uri, true)
                }
            },
            (Stage::Tunnel, Event::TunnelMalformed) => {
                self.transport_open = false;
                self.stage = Stage::Finished;
                connect_abort(ConnectFailure::TunnelMalformed, &self.uri, true)
            },
            (Stage::Tls, Event::TlsEstablished(v)) => {
                let supported = match (v, &self.tls) {
                    (Some(x), Some(cfg)) => offers(&cfg.alpn, x),
                    _ => true,
                };
                if supported {
                    self.tls_established = true;
                    self.negotiated = v;
                    self.stage = Stage::Serving;
                    Action::Serve(connection_version(v, self.declared))
                } else {
                    self.transport_open = false;
                    self.stage = Stage::Finished;
                    connect_abort(ConnectFailure::UnsupportedProtocol, &self.uri, true)
                }
            },
            (Stage::Tls, Event::TlsFailed(f)) => {
                self.transport_open = false;
                self.stage = Stage::Finished;
                connect_abort(f, &self.uri, true)
            },
            (Stage::Serving, Event::Responded(r)) => {
                self.transport_open = false;
                self.served = true;
                self.stage = Stage::Finished;
                Action::Complete(normalize_version(r, self.declared))
            },
            (Stage::Serving, Event::ExchangeFailed(f)) => {
                self.transport_open = false;
                self.stage = Stage::Finished;
                let error = ClientError::new(ErrorKind::Request(f))
                    .with_context(ErrorContext::RequestFor { uri: self.uri.clone() });
                Action::Abort { error, release_transport: true }
            },
            _ => Action::Nothing,
        }
    }
}

} // verus!
