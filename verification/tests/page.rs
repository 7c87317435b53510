use router_hello::config::{Config, Environment, Setting};
use router_hello::http::{respond, Response};
use router_hello::page::IndexTemplate;
use router_hello::remote::{PeerIp, RemoteAddr};

fn header_pairs(response: &Response) -> Vec<(String, String)> {
    response.headers.iter().map(|h| (h.name.clone(), h.value.clone())).collect()
}

#[test]
fn template_takes_the_shown_settings() {
    let config = Config::resolve(Environment::empty());
    let t = IndexTemplate::new(RemoteAddr::V4("192.0.2.5".to_string()), config, "router-hello", "0.1.0");
    assert_eq!(t.pkg_name, "router-hello");
    assert_eq!(t.pkg_version, "0.1.0");
    assert_eq!(t.asn, "AS63806");
    assert_eq!(t.as_name, "MENHERA");
    assert_eq!(t.router_domain, "nc.menhera.org");
    assert_eq!(t.router_id, "rv128");
    assert_eq!(t.address_v4, "43.228.174.128");
    assert_eq!(t.address_v6, "2001:df3:14c0:1128::1");
    assert_eq!(t.remote_address, RemoteAddr::V4("192.0.2.5".to_string()));
}

#[test]
fn rendered_page_is_exact() {
    let t = IndexTemplate {
        pkg_name: "pkg".to_string(),
        pkg_version: "1.2.3".to_string(),
        asn: "AS1".to_string(),
        as_name: "NAME".to_string(),
        router_domain: "example.net".to_string(),
        router_id: "r1".to_string(),
        address_v4: "192.0.2.1".to_string(),
        address_v6: "2001:db8::1".to_string(),
        remote_address: RemoteAddr::V6("2001:db8::2".to_string()),
    };
    let expected = "<!DOCTYPE html>\n<html lang=\"en\">\n<head>\n<meta charset=\"utf-8\">\n\
<title>r1.example.net</title>\n</head>\n<body>\n<h1>r1.example.net</h1>\n<dl>\n\
<dt>AS number</dt><dd>AS1</dd>\n\
<dt>AS name</dt><dd>NAME</dd>\n\
<dt>Router domain</dt><dd>example.net</dd>\n\
<dt>Router ID</dt><dd>r1</dd>\n\
<dt>IPv4 address</dt><dd>192.0.2.1</dd>\n\
<dt>IPv6 address</dt><dd>2001:db8::1</dd>\n\
<dt>Your address</dt><dd>IPv6(2001:db8::2)</dd>\n\
</dl>\n<footer>pkg 1.2.3</footer>\n</body>\n</html>\n";
    assert_eq!(t.render(), expected);
}

#[test]
fn rendered_page_holds_every_value() {
    let env = Environment {
        listen_addr: Some("[::1]:9".to_string()),
        asn: Some("AS-VALUE".to_string()),
        as_name: Some("NAME-VALUE".to_string()),
        router_domain: Some("domain.value".to_string()),
        router_id: Some("rvTEST".to_string()),
        address_v4: Some("v4-value".to_string()),
        address_v6: Some("v6-value".to_string()),
    };
    let t = IndexTemplate::new(
        RemoteAddr::V4("198.51.100.7".to_string()),
        Config::resolve(env),
        "name-value",
        "9.9.9",
    );
    let html = t.render();
    for value in [
        "AS-VALUE",
        "NAME-VALUE",
        "domain.value",
        "rvTEST",
        "v4-value",
        "v6-value",
        "IPv4(198.51.100.7)",
        "name-value",
        "9.9.9",
    ] {
        assert!(html.contains(value), "{} is missing", value);
    }
    assert!(!html.contains("[::1]:9"));
}

#[test]
fn values_are_put_in_as_they_stand() {
    let env = Environment::empty().with(Setting::AsName, Some("<b>&\"'</b>".to_string()));
    let t = IndexTemplate::new(RemoteAddr::V4("192.0.2.5".to_string()), Config::resolve(env), "p", "v");
    assert!(t.render().contains("<dd><b>&\"'</b></dd>"));
}

#[test]
fn router_id_from_the_environment_is_in_the_body() {
    let env = Environment::empty().with(Setting::RouterId, Some("rvTEST".to_string()));
    let response = respond(PeerIp::V4 { octets: [127, 0, 0, 1] }, env, "router-hello", "0.1.0");
    assert!(response.body.contains("rvTEST"));
    assert!(!response.body.contains("rv128"));
}

#[test]
fn defaults_and_local_peer() {
    let response = respond(
        PeerIp::V4 { octets: [127, 0, 0, 1] },
        Environment::empty(),
        "router-hello",
        "0.1.0",
    );
    assert_eq!(response.status, 200);
    assert!(response.body.contains("rv128"));
    assert!(response.body.contains("43.228.174.128"));
    assert!(response.body.contains("IPv4(127.0.0.1)"));
    assert!(!response.body.contains("IPv6("));
}

#[test]
fn mapped_peer_is_shown_as_v4() {
    let octets = [0, 0, 0, 0, 0, 0, 0, 0, 0, 0, 255, 255, 192, 0, 2, 5];
    let response = respond(
        PeerIp::V6 { octets, text: "::ffff:192.0.2.5".to_string() },
        Environment::empty(),
        "router-hello",
        "0.1.0",
    );
    assert!(response.body.contains("IPv4(192.0.2.5)"));
    assert!(!response.body.contains("::ffff"));
}

#[test]
fn v6_peer_is_shown_as_v6() {
    let octets = [0x20, 0x01, 0x0d, 0xb8, 0, 0, 0, 0, 0, 0, 0, 0, 0, 0, 0, 9];
    let response = respond(
        PeerIp::V6 { octets, text: "2001:db8::9".to_string() },
        Environment::empty(),
        "router-hello",
        "0.1.0",
    );
    assert!(response.body.contains("IPv6(2001:db8::9)"));
}

#[test]
fn every_answer_is_200_and_html() {
    let mapped = [0, 0, 0, 0, 0, 0, 0, 0, 0, 0, 255, 255, 10, 0, 0, 1];
    let peers = vec![
        PeerIp::V4 { octets: [10, 0, 0, 1] },
        PeerIp::V4 { octets: [0, 0, 0, 0] },
        PeerIp::V6 { octets: mapped, text: "::ffff:10.0.0.1".to_string() },
        PeerIp::V6 { octets: [0; 16], text: "::".to_string() },
        PeerIp::V6 { octets: [255; 16], text: String::new() },
    ];
    let envs = vec![
        Environment::empty(),
        Environment::empty().with(Setting::ListenAddr, Some("nonsense".to_string())),
        Environment::empty().with(Setting::AddressV4, Some("<not an address>".to_string())),
    ];
    for peer in &peers {
        for env in &envs {
            let response = respond(peer.clone(), env.clone(), "p", "v");
            assert_eq!(response.status, 200);
            assert_eq!(
                header_pairs(&response),
                vec![("Content-Type".to_string(), "text/html".to_string())]
            );
        }
    }
}

#[test]
fn the_same_peer_and_environment_get_the_same_answer() {
    let first = respond(PeerIp::V4 { octets: [10, 0, 0, 1] }, Environment::empty(), "p", "v");
    let second = respond(PeerIp::V4 { octets: [10, 0, 0, 1] }, Environment::empty(), "p", "v");
    assert_eq!(first, second);
}

#[test]
fn html_response_carries_the_body() {
    let response = Response::html("<p>x</p>".to_string());
    assert_eq!(response.status, 200);
    assert_eq!(header_pairs(&response), vec![("Content-Type".to_string(), "text/html".to_string())]);
    assert_eq!(response.body, "<p>x</p>");
}

#[test]
fn body_is_the_rendered_page() {
    let env = Environment::empty().with(Setting::Asn, Some("AS65000".to_string()));
    let response = respond(
        PeerIp::V4 { octets: [203, 0, 113, 9] },
        env.clone(),
        "router-hello",
        "0.1.0",
    );
    let t = IndexTemplate::new(
        RemoteAddr::from(PeerIp::V4 { octets: [203, 0, 113, 9] }),
        Config::resolve(env),
        "router-hello",
        "0.1.0",
    );
    assert_eq!(response.body, t.render());
}
