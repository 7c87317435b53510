use router_hello::config::{Config, Environment, Setting};

fn some(text: &str) -> Option<String> {
    Some(text.to_string())
}

#[test]
fn empty_environment_resolves_to_the_defaults() {
    let config = Config::resolve(Environment::empty());
    assert_eq!(config.listen_address, "[::]:8080");
    assert_eq!(config.asn, "AS63806");
    assert_eq!(config.as_name, "MENHERA");
    assert_eq!(config.router_domain, "nc.menhera.org");
    assert_eq!(config.router_id, "rv128");
    assert_eq!(config.address_v4, "43.228.174.128");
    assert_eq!(config.address_v6, "2001:df3:14c0:1128::1");
}

#[test]
fn given_values_are_taken_and_the_rest_defaulted() {
    let env = Environment::empty()
        .with(Setting::RouterId, some("rvTEST"))
        .with(Setting::Asn, some("AS64512"));
    let config = Config::resolve(env);
    assert_eq!(config.router_id, "rvTEST");
    assert_eq!(config.asn, "AS64512");
    assert_eq!(config.listen_address, "[::]:8080");
    assert_eq!(config.as_name, "MENHERA");
    assert_eq!(config.router_domain, "nc.menhera.org");
    assert_eq!(config.address_v4, "43.228.174.128");
    assert_eq!(config.address_v6, "2001:df3:14c0:1128::1");
}

#[test]
fn every_setting_is_resolved_on_its_own() {
    for setting in Setting::all() {
        let config = Config::resolve(Environment::empty().with(setting, some("given")));
        for other in Setting::all() {
            if other == setting {
                assert_eq!(config.get(other), "given");
            } else {
                assert_eq!(config.get(other), other.default_value());
            }
        }
    }
}

#[test]
fn all_settings_given() {
    let env = Environment {
        listen_addr: some("127.0.0.1:80"),
        asn: some("a"),
        as_name: some("b"),
        router_domain: some("c"),
        router_id: some("d"),
        address_v4: some("e"),
        address_v6: some("f"),
    };
    let config = Config::resolve(env);
    assert_eq!(
        config,
        Config {
            listen_address: "127.0.0.1:80".to_string(),
            asn: "a".to_string(),
            as_name: "b".to_string(),
            router_domain: "c".to_string(),
            router_id: "d".to_string(),
            address_v4: "e".to_string(),
            address_v6: "f".to_string(),
        }
    );
}

#[test]
fn malformed_values_are_not_validated() {
    let env = Environment::empty()
        .with(Setting::AddressV4, some("not an address"))
        .with(Setting::AddressV6, some(""));
    let config = Config::resolve(env);
    assert_eq!(config.address_v4, "not an address");
    assert_eq!(config.address_v6, "");
}

#[test]
fn a_later_lookup_replaces_an_earlier_one() {
    let env = Environment::empty()
        .with(Setting::AsName, some("FIRST"))
        .with(Setting::AsName, None);
    assert_eq!(env, Environment::empty());
    assert_eq!(Config::resolve(env).as_name, "MENHERA");
}

#[test]
fn settings_come_in_order_with_their_keys() {
    let keys: Vec<&str> = Setting::all().into_iter().map(|s| s.key()).collect();
    assert_eq!(
        keys,
        vec!["LISTEN_ADDR", "ASN", "AS_NAME", "ROUTER_DOMAIN", "ROUTER_ID", "ADDRESS_V4", "ADDRESS_V6"]
    );
}

#[test]
fn defaults_by_setting() {
    assert_eq!(Setting::ListenAddr.default_value(), "[::]:8080");
    assert_eq!(Setting::Asn.default_value(), "AS63806");
    assert_eq!(Setting::AsName.default_value(), "MENHERA");
    assert_eq!(Setting::RouterDomain.default_value(), "nc.menhera.org");
    assert_eq!(Setting::RouterId.default_value(), "rv128");
    assert_eq!(Setting::AddressV4.default_value(), "43.228.174.128");
    assert_eq!(Setting::AddressV6.default_value(), "2001:df3:14c0:1128::1");
}

#[test]
fn config_with_replaces_one_setting() {
    let config = Config::resolve(Environment::empty()).with(Setting::RouterDomain, "example.net".to_string());
    assert_eq!(config.get(Setting::RouterDomain), "example.net");
    assert_eq!(config.get(Setting::RouterId), "rv128");
}

#[test]
fn unparseable_listen_address_falls_back_to_the_default() {
    let env = Environment::empty().with(Setting::ListenAddr, some("nonsense"));
    let config = Config::resolve(env);
    assert_eq!(config.listen_address, "nonsense");
    assert_eq!(config.listen_target(false), "[::]:8080");
}

#[test]
fn parseable_listen_address_is_kept() {
    let env = Environment::empty().with(Setting::ListenAddr, some("127.0.0.1:3000"));
    let config = Config::resolve(env);
    assert_eq!(config.listen_target(true), "127.0.0.1:3000");
}
