use host_router::backend::{backend_host_name, BackendDescriptor};

#[test]
fn name_strips_dots_and_colons() {
    assert_eq!(
        backend_host_name(&"api.example.com:8443".to_string()),
        "apiexamplecom8443"
    );
}

#[test]
fn name_of_an_alphanumeric_host_is_the_host() {
    assert_eq!(backend_host_name(&"localhost".to_string()), "localhost");
    assert_eq!(backend_host_name(&"Host42".to_string()), "Host42");
}

#[test]
fn name_of_a_host_without_letters_or_digits_is_empty() {
    assert_eq!(backend_host_name(&"".to_string()), "");
    assert_eq!(backend_host_name(&"..-:_/".to_string()), "");
}

#[test]
fn name_keeps_letters_of_every_script() {
    assert_eq!(backend_host_name(&"bücher.example".to_string()), "bücherexample");
    assert_eq!(backend_host_name(&"例え.テスト".to_string()), "例えテスト");
}

#[test]
fn distinct_hosts_may_share_a_name() {
    assert_eq!(
        backend_host_name(&"a.b.com".to_string()),
        backend_host_name(&"ab.com".to_string())
    );
}

#[test]
fn https_turns_tls_on() {
    let descriptor = BackendDescriptor::build("b.com:8443", "https");
    assert_eq!(
        descriptor,
        BackendDescriptor {
            name: "bcom8443".to_string(),
            host: "b.com:8443".to_string(),
            override_host: "b.com:8443".to_string(),
            tls: true,
            sni_hostname: Some("b.com:8443".to_string()),
        }
    );
}

#[test]
fn http_leaves_tls_off() {
    let descriptor = BackendDescriptor::build("b.com", "http");
    assert_eq!(
        descriptor,
        BackendDescriptor {
            name: "bcom".to_string(),
            host: "b.com".to_string(),
            override_host: "b.com".to_string(),
            tls: false,
            sni_hostname: None,
        }
    );
}

#[test]
fn only_the_exact_scheme_turns_tls_on() {
    for scheme in ["HTTPS", "https ", "http", "", "wss", "httpss", "Https"] {
        let descriptor = BackendDescriptor::build("b.com", scheme);
        assert!(!descriptor.tls, "scheme {:?}", scheme);
        assert_eq!(descriptor.sni_hostname, None);
        assert_eq!(descriptor.override_host, "b.com");
    }
}
