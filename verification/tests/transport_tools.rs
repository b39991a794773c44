use etas_host::transport::resolver::{check_endpoint_host, check_resolved_addresses, is_public_address, resembles_noncanonical_ip_literal, ResolvedAddress};
use etas_host::tls::{handshake_failed, tcp_origin, tls_endpoint, upgrade_refused, upgraded_stream};
use etas_host::tool::{check_tool_status, HttpToolProtocolAdapter, McpToolProtocolAdapter};
use etas_host::transport::authority::{endpoint_admits, endpoint_of, TransportEndpointAuthority, UrlParts};
use etas_host::transport::http::HttpTransport;
use etas_host::transport::retry::RetryRun;
use etas_host::transport::timeout::{request_deadline_exceeded, validate_millis};
use etas_host::{
    AuthConfig, ByteStreamOrigin, ByteStreamRef, HostError, HostErrorCode, HostRequestId,
    HostValue, PrivateResolutionPolicy, ProcessToolProtocolAdapter, ProcessToolResponseEnvelope,
    RetryPolicy, StreamHandleRef, ToolResponse, TransportTimeoutPolicy, UnavailableTlsClient,
};
use std::time::Duration;

#[test]
fn timeout_errors_name_the_bound_and_the_value() {
    let error = validate_millis("connect timeout", 99, 60_000).unwrap_err();
    assert_eq!(
        error.message,
        "transport connect timeout must be between 100 and 60000 milliseconds"
    );
    assert_eq!(error.details, vec![("value_ms".to_owned(), "99".to_owned())]);
    let error = TransportTimeoutPolicy::try_from_millis(2_001, 2_000).unwrap_err();
    assert_eq!(
        error.message,
        "transport connect timeout cannot exceed request deadline"
    );
    assert_eq!(error.details[0].1, "2001");
    let policy = TransportTimeoutPolicy::default();
    assert_eq!(policy.connect_timeout_millis(), 2_000);
    assert_eq!(policy.request_deadline(), Duration::from_secs(30));
    let error = request_deadline_exceeded(policy);
    assert_eq!(error.code, HostErrorCode::TimedOut);
    assert_eq!(
        error.details,
        vec![("configured_request_deadline_ms".to_owned(), "30000".to_owned())]
    );
    assert_eq!(TransportTimeoutPolicy::MAX_REQUEST_DEADLINE_MILLIS, 3_600_000);
}

#[test]
fn retry_runs_attempt_at_most_the_policy_count() {
    let policy = RetryPolicy { attempts: 3, delay: Duration::ZERO };
    let mut run = RetryRun::start(&policy).ok().expect("attempts allowed");
    let mut attempts = 0;
    while run.begin_attempt() {
        attempts += 1;
        if !run.retry_after_failure() {
            break;
        }
    }
    assert_eq!(attempts, 3);
    assert!(!run.begin_attempt());
    assert_eq!(RetryPolicy::none().attempts, 1);
    let error = RetryRun::start(&RetryPolicy { attempts: 0, delay: Duration::ZERO })
        .err()
        .expect("no attempts");
    assert_eq!(
        error.message,
        "HTTP retry policy must attempt each request at least once"
    );
}

#[test]
fn auth_headers_follow_the_configuration() {
    assert!(AuthConfig::NoAuth.headers().is_empty());
    assert_eq!(
        AuthConfig::BearerToken("t0k".to_owned()).headers(),
        vec![("Authorization".to_owned(), "Bearer t0k".to_owned())]
    );
    assert_eq!(
        AuthConfig::Header { name: "X-Key".to_owned(), value: "v".to_owned() }.headers(),
        vec![("X-Key".to_owned(), "v".to_owned())]
    );
}

#[test]
fn endpoint_authority_normalizes_the_base_url() {
    let authority =
        TransportEndpointAuthority::try_new("HTTP://Example.COM:8080/api?x=1#frag", PrivateResolutionPolicy::AllowPrivate)
            .expect("valid base URL");
    assert_eq!(authority.base_url(), "http://example.com:8080/api/");
    assert_eq!(authority.endpoint(), ("http", "example.com", 8080));
    assert_eq!(authority.private_resolution(), PrivateResolutionPolicy::AllowPrivate);
    let joined = authority.join("/v1/call").expect("joined");
    assert_eq!(joined.as_str(), "http://example.com:8080/api/v1/call");
    let error = authority.join("https://other.example/").unwrap_err();
    assert_eq!(error.code, HostErrorCode::AuthorityDenied);
    assert!(authority.parse_and_authorize("http://EXAMPLE.com:8080/z").is_ok());
    let error = authority.parse_and_authorize("http://example.com:8081/z").unwrap_err();
    assert_eq!(error.code, HostErrorCode::AuthorityDenied);
    assert_eq!(error.details[0], ("url".to_owned(), "http://example.com:8081/z".to_owned()));
    assert_eq!(
        error.details[1],
        ("authority".to_owned(), "http://example.com:8080/api/".to_owned())
    );
    let error = authority.parse_and_authorize("not a url").unwrap_err();
    assert_eq!(error.message, "invalid HTTP endpoint URL");
    assert_eq!(error.details[0], ("url".to_owned(), "not a url".to_owned()));
}

#[test]
fn endpoint_authority_rejects_bad_base_urls() {
    let error = TransportEndpointAuthority::try_new("ftp://example.com/", PrivateResolutionPolicy::PublicOnly)
        .unwrap_err();
    assert_eq!(error.message, "HTTP transport endpoint must use http or https");
    assert_eq!(error.details, vec![("scheme".to_owned(), "ftp".to_owned())]);
    let error = TransportEndpointAuthority::try_new("::", PrivateResolutionPolicy::PublicOnly).unwrap_err();
    assert_eq!(error.message, "invalid HTTP base URL");
    let error = endpoint_of(&UrlParts { scheme: "https".to_owned(), host: None, port: Some(1), path: "/".to_owned(), text: "https:///".to_owned() }).unwrap_err();
    assert_eq!(error.message, "HTTP base URL is missing a host");
    let error = endpoint_of(&UrlParts { scheme: "https".to_owned(), host: Some("h".to_owned()), port: None, path: "/".to_owned(), text: "https://h/".to_owned() })
        .unwrap_err();
    assert_eq!(error.message, "HTTP base URL is missing a port");
    let parts = UrlParts { scheme: "https".to_owned(), host: Some("HoSt".to_owned()), port: Some(443), path: "/".to_owned(), text: "https://HoSt/".to_owned() };
    assert_eq!(endpoint_of(&parts).unwrap(), ("https".to_owned(), "host".to_owned(), 443));
    assert!(endpoint_admits("https", "host", 443, &parts));
    assert!(!endpoint_admits("http", "host", 443, &parts));
}

#[test]
fn endpoint_authority_drops_query_and_fragment_and_keeps_the_default_port() {
    let authority =
        TransportEndpointAuthority::try_new("https://Example.COM/api?x=1#frag", PrivateResolutionPolicy::PublicOnly)
            .expect("valid base URL");
    assert_eq!(authority.base_url(), "https://example.com/api/");
    assert_eq!(authority.endpoint(), ("https", "example.com", 443));
    let authority =
        TransportEndpointAuthority::try_new("http://example.com/dir/", PrivateResolutionPolicy::PublicOnly)
            .expect("valid base URL");
    assert_eq!(authority.base_url(), "http://example.com/dir/");
    assert_eq!(authority.join("///a/b").expect("joined").as_str(), "http://example.com/dir/a/b");
    assert_eq!(authority.join("").expect("joined").as_str(), "http://example.com/dir/");
    let error = authority.join("http://example.com:9/x").unwrap_err();
    assert_eq!(error.code, HostErrorCode::AuthorityDenied);
    assert_eq!(error.details[0], ("url".to_owned(), "http://example.com:9/x".to_owned()));
    assert_eq!(error.details[1], ("authority".to_owned(), "http://example.com/dir/".to_owned()));
    let error = authority.join("http://[::1").unwrap_err();
    assert_eq!(error.code, HostErrorCode::InvalidRequest);
    assert_eq!(error.message, "invalid HTTP endpoint URL");
    assert_eq!(error.details[0], ("path".to_owned(), "http://[::1".to_owned()));
    assert!(HttpTransport::try_new("mailto:someone@example.com", PrivateResolutionPolicy::PublicOnly).is_err());
    let error = HttpTransport::try_new("not a url", PrivateResolutionPolicy::PublicOnly).unwrap_err();
    assert_eq!(error.message, "invalid HTTP base URL");
    assert_eq!(error.details[0], ("url".to_owned(), "not a url".to_owned()));
}

#[test]
fn http_transport_builders_replace_one_setting() {
    let transport = HttpTransport::try_new("https://example.com", PrivateResolutionPolicy::PublicOnly)
        .expect("transport")
        .with_auth(AuthConfig::BearerToken("x".to_owned()))
        .with_retry(RetryPolicy { attempts: 2, delay: Duration::from_millis(5) })
        .with_timeout(TransportTimeoutPolicy::try_from_millis(100, 200).unwrap());
    assert_eq!(transport.base_url(), "https://example.com/");
    assert_eq!(transport.auth, AuthConfig::BearerToken("x".to_owned()));
    assert_eq!(transport.retry.attempts, 2);
    assert_eq!(transport.timeout.request_deadline_millis(), 200);
}

#[test]
fn tool_adapters_and_outputs() {
    let process = ProcessToolProtocolAdapter::new("tool", vec!["--json".to_owned()]);
    assert_eq!(process.program, "tool");
    let response = ToolResponse { id: HostRequestId(4), result: Ok(HostValue::Bool(true)) };
    let decoded = ProcessToolProtocolAdapter::decode_response(ProcessToolResponseEnvelope {
        response: ToolResponse { id: HostRequestId(4), result: Ok(HostValue::Bool(true)) },
    })
    .unwrap();
    assert_eq!(decoded, response);
    assert_eq!(
        ProcessToolProtocolAdapter::decode_output(0, b"{}".to_vec()).unwrap(),
        "{}"
    );
    let error = ProcessToolProtocolAdapter::decode_output(-2, Vec::new()).unwrap_err();
    assert_eq!(error.code, HostErrorCode::ToolRejected);
    assert_eq!(error.details, vec![("status".to_owned(), "-2".to_owned())]);
    let error = ProcessToolProtocolAdapter::decode_output(0, vec![0xff, 0xfe]).unwrap_err();
    assert_eq!(error.code, HostErrorCode::InvalidResponse);
    assert!(check_tool_status(204).is_ok());
    let error = check_tool_status(404).unwrap_err();
    assert_eq!(error.details, vec![("status".to_owned(), "404".to_owned())]);
    assert!(check_tool_status(300).is_err());
    let mcp = McpToolProtocolAdapter::new("https://tools.example").expect("adapter");
    assert_eq!(mcp.http.path, "/mcp/call");
    let http = HttpToolProtocolAdapter::new("https://tools.example", "/run").expect("adapter");
    assert_eq!(http.path, "/run");
    assert!(HttpToolProtocolAdapter::new("file:///x", "/run").is_err());
}

#[test]
fn tls_upgrade_helpers() {
    let tcp = ByteStreamRef::issued(
        StreamHandleRef::issued("tok", 0),
        ByteStreamOrigin::Tcp { host: "h".to_owned(), port: 443 },
    );
    assert_eq!(tcp_origin(&tcp).unwrap(), ("h".to_owned(), 443));
    let opaque = ByteStreamRef::opaque_for_testing("tok", 0);
    let error = tcp_origin(&opaque).unwrap_err();
    assert_eq!(error.message, "TLS handshake requires a TCP stream with typed TCP origin");
    assert_eq!(error.details[0].1, opaque.handle().identity_fingerprint());
    let upgraded = upgraded_stream(&tcp, 1, "h", 443, "example.com");
    assert_eq!(upgraded.handle().generation(), 1);
    assert_eq!(upgraded.handle().token(), "tok");
    assert_eq!(
        upgraded.origin(),
        &ByteStreamOrigin::Tls { host: "h".to_owned(), port: 443, server_name: Some("example.com".to_owned()) }
    );
    let failed = handshake_failed(HostError::new(HostErrorCode::Closed, "TLS handshake failed"), "h", 443, "n");
    assert_eq!(failed.details[1], ("port".to_owned(), "443".to_owned()));
    let refused = upgrade_refused(HostError::new(HostErrorCode::Closed, "byte stream is closed"), &tcp);
    assert_eq!(refused.details[0].0, "stream");
    let response = UnavailableTlsClient.respond(HostRequestId(9));
    assert_eq!(response.id, HostRequestId(9));
    assert_eq!(response.result.unwrap_err().message, "TLS client is not configured");
}

#[test]
fn endpoint_hosts_in_other_address_notations_are_refused() {
    assert!(resembles_noncanonical_ip_literal("0x7f.1"));
    assert!(resembles_noncanonical_ip_literal("2130706433"));
    assert!(!resembles_noncanonical_ip_literal("1e100.net"));
    assert!(!resembles_noncanonical_ip_literal("example.com"));
    let error = check_endpoint_host("http", "127.1", 80, &None).unwrap_err();
    assert_eq!(error.code, HostErrorCode::AuthorityDenied);
    assert_eq!(error.message, "non-canonical IP address encoding is not permitted");
    assert_eq!(error.details[2], ("port".to_owned(), "80".to_owned()));
    assert!(check_endpoint_host("http", "127.0.0.1", 80, &Some(vec![127, 0, 0, 1])).is_ok());
    assert!(check_endpoint_host("http", "example.com", 80, &None).is_ok());
}

#[test]
fn resolved_addresses_must_match_the_literal_and_the_privacy_policy() {
    let address = |octets: Vec<u8>, text: &str| ResolvedAddress { octets, text: text.to_owned() };
    assert!(is_public_address(&vec![93, 184, 216, 34]));
    for private in [vec![10, 0, 0, 1], vec![127, 0, 0, 1], vec![192, 168, 1, 1], vec![169, 254, 0, 1], vec![100, 64, 0, 1]] {
        assert!(!is_public_address(&private));
    }
    let mut loopback6 = vec![0; 16];
    loopback6[15] = 1;
    assert!(!is_public_address(&loopback6));
    let mut mapped = vec![0; 16];
    mapped[10] = 0xff;
    mapped[11] = 0xff;
    mapped[12..].copy_from_slice(&[10, 1, 2, 3]);
    assert!(!is_public_address(&mapped));
    let mut global6 = vec![0; 16];
    global6[0] = 0x26;
    global6[1] = 0x06;
    assert!(is_public_address(&global6));

    let public = vec![address(vec![93, 184, 216, 34], "93.184.216.34")];
    assert!(check_resolved_addresses("https", "example.com", 443, PrivateResolutionPolicy::PublicOnly, &None, &public).is_ok());
    let mixed = vec![address(vec![93, 184, 216, 34], "93.184.216.34"), address(vec![10, 0, 0, 1], "10.0.0.1")];
    let error = check_resolved_addresses("https", "example.com", 443, PrivateResolutionPolicy::PublicOnly, &None, &mixed)
        .unwrap_err();
    assert_eq!(error.message, "transport endpoint resolved to a disallowed address");
    assert_eq!(error.details[3], ("address".to_owned(), "10.0.0.1".to_owned()));
    assert!(check_resolved_addresses("https", "example.com", 443, PrivateResolutionPolicy::AllowPrivate, &None, &mixed).is_ok());
    let error = check_resolved_addresses(
        "http",
        "10.0.0.1",
        80,
        PrivateResolutionPolicy::AllowPrivate,
        &Some(vec![10, 0, 0, 1]),
        &vec![address(vec![10, 0, 0, 2], "10.0.0.2")],
    )
    .unwrap_err();
    assert_eq!(error.code, HostErrorCode::AuthorityDenied);
    let error = check_resolved_addresses("http", "h", 80, PrivateResolutionPolicy::AllowPrivate, &None, &vec![]).unwrap_err();
    assert_eq!(error.message, "transport endpoint resolved to no addresses");
}

#[test]
fn no_retry_policy_makes_one_attempt_without_delay() {
    let policy = RetryPolicy::none();
    assert_eq!(policy.attempts, 1);
    assert_eq!(policy.delay, Duration::ZERO);
}

#[test]
fn tls_uses_store_provenance_instead_of_request_origin() {
    let forged = ByteStreamRef::issued(
        StreamHandleRef::issued("tok", 0),
        ByteStreamOrigin::Tcp { host: "203.0.113.1".to_owned(), port: 9 },
    );
    let recorded = ByteStreamOrigin::Tcp { host: "127.0.0.1".to_owned(), port: 4433 };
    assert_eq!(tls_endpoint(&forged, &recorded).unwrap(), ("127.0.0.1".to_owned(), 4433));
    let opaque = ByteStreamRef::opaque_for_testing("tok", 0);
    assert_eq!(tls_endpoint(&opaque, &recorded).unwrap_err().code, HostErrorCode::InvalidRequest);
    assert!(tls_endpoint(&forged, &ByteStreamOrigin::Opaque).is_err());
}
