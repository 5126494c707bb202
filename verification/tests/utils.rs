use ocular::utils::{endpoint_from_parsed, parse_or_build_grpc_endpoint, UriSummary};

#[test]
fn valid_output() {
    let a = "test.com";
    let b = "test.com:9090";
    let c = "tcp://test.com";
    let d = "tcp://test.com:9090";
    let e = "https://test.com";
    let f = "https://test.com:9090";

    assert!(parse_or_build_grpc_endpoint(a).is_ok());
    assert_eq!(parse_or_build_grpc_endpoint(a).unwrap(), "".to_string());
    assert!(parse_or_build_grpc_endpoint(b).is_ok());
    assert_eq!(parse_or_build_grpc_endpoint(b).unwrap(), "https://test.com:9090/".to_string());
    assert!(parse_or_build_grpc_endpoint(c).is_ok());
    assert_eq!(parse_or_build_grpc_endpoint(c).unwrap(), "".to_string());
    assert!(parse_or_build_grpc_endpoint(d).is_ok());
    assert_eq!(parse_or_build_grpc_endpoint(d).unwrap(), "tcp://test.com:9090/".to_string());
    assert!(parse_or_build_grpc_endpoint(e).is_ok());
    assert_eq!(parse_or_build_grpc_endpoint(e).unwrap(), "".to_string());
    assert!(parse_or_build_grpc_endpoint(f).is_ok());
    assert_eq!(parse_or_build_grpc_endpoint(f).unwrap(), "https://test.com:9090/".to_string());
}

#[test]
fn unparsable_address_is_an_error() {
    assert!(parse_or_build_grpc_endpoint("http://exa mple.com:9090").is_err());
}

#[test]
fn endpoint_after_parse_cases() {
    let no_port = UriSummary { has_port: false, has_scheme: true, text: "https://x.org/".to_string() };
    assert_eq!(endpoint_from_parsed("https://x.org", &no_port).unwrap(), "");
    let with_scheme = UriSummary { has_port: true, has_scheme: true, text: "grpc://x.org:1/".to_string() };
    assert_eq!(endpoint_from_parsed("grpc://x.org:1", &with_scheme).unwrap(), "grpc://x.org:1/");
    let bare = UriSummary { has_port: true, has_scheme: false, text: "x.org:1".to_string() };
    assert_eq!(endpoint_from_parsed("x.org:1", &bare).unwrap(), "https://x.org:1/");
}
