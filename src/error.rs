use vstd::prelude::*;

verus! {

/// Why a byte stream could not be opened.
#[derive(Clone, Copy, Debug, PartialEq, Eq, Structural)]
pub enum TransportFailure {
    Resolution,
    Refused,
    Timeout,
}

/// Why a connection could not be established, by the stage that failed.
#[derive(Clone, Copy, Debug, PartialEq, Eq, Structural)]
pub enum ConnectFailure {
    /// The stream to the target could not be opened.
    Transport(TransportFailure),
    /// The stream to the proxy could not be opened.
    ProxyUnreachable { cause: TransportFailure },
    ProxyRejected { status: u16 },
    TunnelMalformed,
    TlsHandshake,
    CertificateInvalid,
    UnsupportedProtocol,
}

/// Why an exchange on an established connection failed.
#[derive(Clone, Copy, Debug, PartialEq, Eq, Structural)]
pub enum RequestFailure {
    Write,
    Read,
    ProtocolViolation,
    ClosedEarly,
}

/// Why the connector stack could not be built.
#[derive(Clone, Copy, Debug, PartialEq, Eq, Structural)]
pub enum ConfigIssue {
    InvalidTargetHost,
    InvalidProxyHost,
    EmptyProtocolOffer,
}

/// The taxonomy of a failed call.
#[derive(Clone, Copy, Debug, PartialEq, Eq, Structural)]
pub enum ErrorKind {
    Configuration(ConfigIssue),
    Connect(ConnectFailure),
    Request(RequestFailure),
}

/// One piece of context added where a failure crossed a stage boundary.
#[derive(Clone, Debug)]
pub enum ErrorContext {
    /// Building the connector stack for the uri failed.
    BuildFor { uri: String },
    /// Connecting to the uri failed.
    ConnectTo { uri: String },
    /// The request to the uri failed on an established connection.
    RequestFor { uri: String },
}

/// A failed call: its innermost cause and, outermost last, the context
/// added at each boundary it crossed.
#[derive(Clone, Debug)]
pub struct ClientError {
    pub kind: ErrorKind,
    pub context: Vec<ErrorContext>,
}

impl ClientError {
    pub fn new(kind: ErrorKind) -> (r: ClientError)
        ensures
            r.kind == kind,
            r.context@.len() == 0,
    {
        ClientError { kind, context: Vec::new() }
    }

    /// Adds one piece of context, keeping the cause and all earlier context.
    pub fn with_context(self, ctx: ErrorContext) -> (r: ClientError)
        ensures
            r.kind == self.kind,
            r.context@ == self.context@.push(ctx),
    {
        let mut e = self;
        e.context.push(ctx);
        e
    }

    pub fn is_connect_failure(&self) -> (r: bool)
        ensures
            r == (self.kind is Connect),
    {
        matches!(self.kind, ErrorKind::Connect(_))
    }

    pub fn is_request_failure(&self) -> (r: bool)
        ensures
            r == (self.kind is Request),
    {
        matches!(self.kind, ErrorKind::Request(_))
    }

    pub fn is_configuration_error(&self) -> (r: bool)
        ensures
            r == (self.kind is Configuration),
    {
        matches!(self.kind, ErrorKind::Configuration(_))
    }
}

} // verus!
