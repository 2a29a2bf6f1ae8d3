use rama_http_client::call::{Action, Call, Event, Stage};
use rama_http_client::client::{Authority, HttpClient, RequestHead, Scheme, TlsClientConfig};
use rama_http_client::error::{
    ClientError, ConfigIssue, ConnectFailure, ErrorContext, ErrorKind, RequestFailure, TransportFailure,
};
use rama_http_client::version::{connection_version, normalize_version, HttpVersion, ResponseHead};

fn request(uri: &str, scheme: Scheme, host: &str, port: Option<u16>, version: HttpVersion) -> RequestHead {
    RequestHead { uri: uri.to_string(), scheme, host: host.to_string(), port, version }
}

fn https_example() -> RequestHead {
    request("https://example.com/", Scheme::Https, "example.com", None, HttpVersion::Http11)
}

fn proxy() -> Authority {
    Authority { host: "proxy.local".to_string(), port: 8080 }
}

fn start(client: &HttpClient, req: &RequestHead, proxy: Option<Authority>) -> (Call, Action) {
    match client.start_call(req, proxy) {
        Ok(pair) => pair,
        Err(e) => panic!("unexpected error {:?}", e),
    }
}

fn connect_failure(a: &Action) -> Option<ConnectFailure> {
    match a {
        Action::Abort { error, .. } => match error.kind {
            ErrorKind::Connect(f) => Some(f),
            _ => None,
        },
        _ => None,
    }
}

#[test]
fn https_direct_negotiates_h2_but_reports_declared_version() {
    let client = HttpClient::new();
    let (mut call, a) = start(&client, &https_example(), None);
    match a {
        Action::OpenTransport(addr) => {
            assert_eq!(addr.host, "example.com");
            assert_eq!(addr.port, 443);
        }
        other => panic!("{:?}", other),
    }
    let a = call.step(Event::TransportConnected);
    assert!(matches!(a, Action::TlsHandshake));
    assert!(call.tls_attempted);
    let offered = call.tls.as_ref().unwrap().alpn.clone();
    assert_eq!(offered, vec![HttpVersion::Http2, HttpVersion::Http11]);
    let a = call.step(Event::TlsEstablished(Some(HttpVersion::Http2)));
    assert!(matches!(a, Action::Serve(HttpVersion::Http2)));
    let a = call.step(Event::Responded(ResponseHead { status: 200, version: HttpVersion::Http2 }));
    match a {
        Action::Complete(r) => {
            assert_eq!(r.version, HttpVersion::Http11);
            assert_eq!(r.status, 200);
        }
        other => panic!("{:?}", other),
    }
    assert!(call.served);
    assert!(call.tls_established);
    assert!(!call.transport_open);
    assert_eq!(call.stage, Stage::Finished);
}

#[test]
fn proxy_rejection_fails_without_tls() {
    let client = HttpClient::new();
    let (mut call, a) = start(&client, &https_example(), Some(proxy()));
    match a {
        Action::OpenTransport(addr) => {
            assert_eq!(addr.host, "proxy.local");
            assert_eq!(addr.port, 8080);
        }
        other => panic!("{:?}", other),
    }
    let a = call.step(Event::TransportConnected);
    match a {
        Action::OpenTunnel(addr) => {
            assert_eq!(addr.host, "example.com");
            assert_eq!(addr.port, 443);
        }
        other => panic!("{:?}", other),
    }
    let a = call.step(Event::TunnelStatus(407));
    assert_eq!(connect_failure(&a), Some(ConnectFailure::ProxyRejected { status: 407 }));
    match &a {
        Action::Abort { error, release_transport } => {
            assert!(*release_transport);
            assert_eq!(error.context.len(), 1);
            assert!(matches!(&error.context[0], ErrorContext::ConnectTo { uri } if uri == "https://example.com/"));
        }
        other => panic!("{:?}", other),
    }
    assert!(!call.tls_attempted);
    assert!(matches!(call.step(Event::TlsEstablished(None)), Action::Nothing));
    assert!(!call.tls_attempted);
}

#[test]
fn proxy_tunnel_completes_before_tls() {
    let client = HttpClient::new();
    let (mut call, _) = start(&client, &https_example(), Some(proxy()));
    call.step(Event::TransportConnected);
    assert!(matches!(call.step(Event::TlsEstablished(None)), Action::Nothing));
    assert!(!call.tls_attempted);
    let a = call.step(Event::TunnelStatus(200));
    assert!(matches!(a, Action::TlsHandshake));
    assert!(call.tunnel_established);
    let a = call.step(Event::TlsEstablished(None));
    assert!(matches!(a, Action::Serve(HttpVersion::Http11)));
}

#[test]
fn plain_http_never_attempts_tls() {
    let client = HttpClient::new().with_tls_config(TlsClientConfig::http_auto());
    let req = request("http://example.com:8000/", Scheme::Http, "example.com", Some(8000), HttpVersion::Http10);
    let (mut call, a) = start(&client, &req, None);
    assert!(call.tls.is_none());
    match a {
        Action::OpenTransport(addr) => assert_eq!(addr.port, 8000),
        other => panic!("{:?}", other),
    }
    let a = call.step(Event::TransportConnected);
    assert!(matches!(a, Action::Serve(HttpVersion::Http10)));
    let a = call.step(Event::Responded(ResponseHead { status: 404, version: HttpVersion::Http11 }));
    assert!(matches!(a, Action::Complete(ResponseHead { status: 404, version: HttpVersion::Http10 })));
    assert!(!call.tls_attempted);
}

#[test]
fn cancel_mid_handshake_releases_transport() {
    let client = HttpClient::new();
    let (mut call, _) = start(&client, &https_example(), None);
    call.step(Event::TransportConnected);
    assert!(call.transport_open);
    let a = call.step(Event::Cancelled);
    assert!(matches!(a, Action::Cancel { release_transport: true }));
    assert!(!call.transport_open);
    assert!(matches!(call.step(Event::Cancelled), Action::Nothing));
}

#[test]
fn cancel_before_transport_has_nothing_to_release() {
    let client = HttpClient::new();
    let (mut call, _) = start(&client, &https_example(), None);
    let a = call.step(Event::Cancelled);
    assert!(matches!(a, Action::Cancel { release_transport: false }));
    assert_eq!(call.stage, Stage::Finished);
}

#[test]
fn transport_failure_kinds() {
    let client = HttpClient::new();
    let (mut call, _) = start(&client, &https_example(), None);
    let a = call.step(Event::TransportFailed(TransportFailure::Refused));
    assert_eq!(connect_failure(&a), Some(ConnectFailure::Transport(TransportFailure::Refused)));
    assert!(matches!(a, Action::Abort { release_transport: false, .. }));

    let (mut call, _) = start(&client, &https_example(), Some(proxy()));
    let a = call.step(Event::TransportFailed(TransportFailure::Timeout));
    assert_eq!(
        connect_failure(&a),
        Some(ConnectFailure::ProxyUnreachable { cause: TransportFailure::Timeout })
    );
}

#[test]
fn malformed_tunnel_reply() {
    let client = HttpClient::new();
    let (mut call, _) = start(&client, &https_example(), Some(proxy()));
    call.step(Event::TransportConnected);
    let a = call.step(Event::TunnelMalformed);
    assert_eq!(connect_failure(&a), Some(ConnectFailure::TunnelMalformed));
}

#[test]
fn tls_failures() {
    let client = HttpClient::new();
    let (mut call, _) = start(&client, &https_example(), None);
    call.step(Event::TransportConnected);
    let a = call.step(Event::TlsFailed(ConnectFailure::CertificateInvalid));
    assert_eq!(connect_failure(&a), Some(ConnectFailure::CertificateInvalid));

    let only_h1 = TlsClientConfig { verify_server: true, alpn: vec![HttpVersion::Http11] };
    let client = HttpClient::new().with_tls_config(only_h1);
    let (mut call, _) = start(&client, &https_example(), None);
    call.step(Event::TransportConnected);
    let a = call.step(Event::TlsEstablished(Some(HttpVersion::Http2)));
    assert_eq!(connect_failure(&a), Some(ConnectFailure::UnsupportedProtocol));
}

#[test]
fn exchange_failure_is_request_failure() {
    let client = HttpClient::new();
    let req = request("http://example.com/", Scheme::Http, "example.com", None, HttpVersion::Http11);
    let (mut call, _) = start(&client, &req, None);
    call.step(Event::TransportConnected);
    let a = call.step(Event::ExchangeFailed(RequestFailure::ClosedEarly));
    match a {
        Action::Abort { error, release_transport } => {
            assert!(release_transport);
            assert!(error.is_request_failure());
            assert_eq!(error.kind, ErrorKind::Request(RequestFailure::ClosedEarly));
            assert!(matches!(&error.context[0], ErrorContext::RequestFor { uri } if uri == "http://example.com/"));
        }
        other => panic!("{:?}", other),
    }
}

#[test]
fn configuration_errors() {
    let client = HttpClient::new();
    let req = request("https:///", Scheme::Https, "", None, HttpVersion::Http11);
    let e = client.start_call(&req, None).unwrap_err();
    assert_eq!(e.kind, ErrorKind::Configuration(ConfigIssue::InvalidTargetHost));
    assert!(e.is_configuration_error());

    let bad_proxy = Authority { host: String::new(), port: 3128 };
    let e = client.start_call(&https_example(), Some(bad_proxy)).unwrap_err();
    assert_eq!(e.kind, ErrorKind::Configuration(ConfigIssue::InvalidProxyHost));

    let mut client = HttpClient::new();
    client.set_tls_config(TlsClientConfig { verify_server: false, alpn: vec![] });
    let e = client.start_call(&https_example(), None).unwrap_err();
    assert_eq!(e.kind, ErrorKind::Configuration(ConfigIssue::EmptyProtocolOffer));
    let req = request("ws://example.com/", Scheme::Ws, "example.com", None, HttpVersion::Http11);
    assert!(client.start_call(&req, None).is_ok());
}

#[test]
fn client_configuration_setters() {
    let client = HttpClient::new();
    assert!(client.tls_config.is_none());
    let client = client.maybe_with_tls_config(Some(TlsClientConfig::http_auto()));
    assert!(client.tls_config.as_ref().unwrap().verify_server);
    let client = client.maybe_with_tls_config(None);
    assert!(client.tls_config.is_none());
}

#[test]
fn wss_default_port_and_offer() {
    let client = HttpClient::new();
    let req = request("wss://example.com/", Scheme::Wss, "example.com", None, HttpVersion::Http11);
    let (call, _) = start(&client, &req, None);
    assert_eq!(call.target.port, 443);
    assert!(call.tls.is_some());
    assert_eq!(Scheme::Ws.default_port(), 80);
    assert!(Scheme::Wss.requires_tls());
    assert!(!Scheme::Http.requires_tls());
}

#[test]
fn version_helpers() {
    assert_eq!(connection_version(Some(HttpVersion::Http2), HttpVersion::Http11), HttpVersion::Http2);
    assert_eq!(connection_version(None, HttpVersion::Http10), HttpVersion::Http10);
    let r = normalize_version(ResponseHead { status: 201, version: HttpVersion::Http3 }, HttpVersion::Http11);
    assert_eq!(r, ResponseHead { status: 201, version: HttpVersion::Http11 });
}

#[test]
fn error_context_chain() {
    let e = ClientError::new(ErrorKind::Connect(ConnectFailure::Transport(TransportFailure::Resolution)))
        .with_context(ErrorContext::ConnectTo { uri: "a".to_string() })
        .with_context(ErrorContext::RequestFor { uri: "b".to_string() });
    assert_eq!(e.kind, ErrorKind::Connect(ConnectFailure::Transport(TransportFailure::Resolution)));
    assert_eq!(e.context.len(), 2);
    assert!(matches!(&e.context[0], ErrorContext::ConnectTo { uri } if uri == "a"));
    assert!(e.is_connect_failure());
}

#[test]
fn hosts_with_spaces_or_line_breaks_are_rejected() {
    let client = HttpClient::new();
    let req = request("http://x/", Scheme::Http, "example.com\r\nX-Evil: 1", None, HttpVersion::Http11);
    let e = client.start_call(&req, None).unwrap_err();
    assert_eq!(e.kind, ErrorKind::Configuration(ConfigIssue::InvalidTargetHost));
    let req = request("http://x/", Scheme::Http, "exa mple.com", None, HttpVersion::Http11);
    assert!(client.start_call(&req, None).is_err());
    let bad_proxy = Authority { host: "proxy\n".to_string(), port: 3128 };
    let e = client.start_call(&https_example(), Some(bad_proxy)).unwrap_err();
    assert_eq!(e.kind, ErrorKind::Configuration(ConfigIssue::InvalidProxyHost));
    let req = request("http://[::1]/", Scheme::Http, "::1", None, HttpVersion::Http11);
    assert!(client.start_call(&req, None).is_ok());
}
