use nearsend::net::{
    format_visual_ip_ids, ip_matches_network_filters, ip_suffix_badge, ipv4_prefix, ipv4_to_string,
    is_network_filter_active, local_ip_prefixes, rank_ipv4_addresses, resolve_labeled_ip,
    select_local_ipv4s, wildcard_ip_match, InterfaceAddress, Ipv4, NetworkFilterMode,
};

fn ip(a: u8, b: u8, c: u8, d: u8) -> Ipv4 {
    Ipv4 { a, b, c, d }
}

fn strings(v: &[&str]) -> Vec<String> {
    v.iter().map(|s| s.to_string()).collect()
}

#[test]
fn wildcard_rules() {
    assert!(wildcard_ip_match(" 192.168.1.5 ", "192.168.1.*"));
    assert!(wildcard_ip_match("10.0.0.1", "*"));
    assert!(wildcard_ip_match("10.0.0.1", " 10.0.0.1 "));
    assert!(!wildcard_ip_match("10.0.0.1", "10.0.0.2"));
    assert!(!wildcard_ip_match("", "*"));
    assert!(!wildcard_ip_match("10.0.0.1", " "));
}

#[test]
fn filter_modes() {
    let rules = strings(&["192.168.*"]);
    assert!(!is_network_filter_active(NetworkFilterMode::All, &rules));
    assert!(!is_network_filter_active(NetworkFilterMode::Whitelist, &[]));
    assert!(is_network_filter_active(NetworkFilterMode::Blacklist, &rules));
    assert!(ip_matches_network_filters("10.0.0.1", NetworkFilterMode::All, &rules));
    assert!(ip_matches_network_filters("192.168.0.1", NetworkFilterMode::Whitelist, &rules));
    assert!(!ip_matches_network_filters("10.0.0.1", NetworkFilterMode::Whitelist, &rules));
    assert!(!ip_matches_network_filters("192.168.0.1", NetworkFilterMode::Blacklist, &rules));
    assert!(ip_matches_network_filters("10.0.0.1", NetworkFilterMode::Blacklist, &rules));
}

#[test]
fn ranking_puts_the_primary_address_first_and_gateways_last() {
    let mut list = vec![ip(192, 168, 1, 1), ip(10, 0, 0, 9), ip(192, 168, 1, 20), ip(10, 0, 0, 5)];
    rank_ipv4_addresses(&mut list, Some(ip(192, 168, 1, 20)));
    assert_eq!(list, vec![ip(192, 168, 1, 20), ip(10, 0, 0, 5), ip(10, 0, 0, 9), ip(192, 168, 1, 1)]);
    assert_eq!(ipv4_to_string(ip(10, 0, 0, 5)), "10.0.0.5");
}

#[test]
fn local_addresses() {
    let ifaces = vec![
        InterfaceAddress { ip: ip(127, 0, 0, 1), is_loopback: true },
        InterfaceAddress { ip: ip(169, 254, 3, 4), is_loopback: false },
        InterfaceAddress { ip: ip(192, 168, 1, 7), is_loopback: false },
        InterfaceAddress { ip: ip(10, 0, 0, 2), is_loopback: false },
        InterfaceAddress { ip: ip(10, 0, 0, 2), is_loopback: false },
    ];
    let out = select_local_ipv4s(&ifaces, Some(ip(192, 168, 1, 7)), NetworkFilterMode::All, &[]);
    assert_eq!(out, strings(&["192.168.1.7", "10.0.0.2"]));
    let out = select_local_ipv4s(&ifaces, None, NetworkFilterMode::Whitelist, &strings(&["172.*"]));
    assert!(out.is_empty());
    let out = select_local_ipv4s(
        &ifaces,
        Some(ip(172, 16, 0, 3)),
        NetworkFilterMode::Whitelist,
        &strings(&["172.*"]),
    );
    assert_eq!(out, strings(&["172.16.0.3"]));
}

#[test]
fn prefixes_and_labels() {
    assert_eq!(ipv4_prefix("192.168.1.7").as_deref(), Some("192.168.1"));
    assert_eq!(ipv4_prefix("192.168.1").as_deref(), Some("192.168.1"));
    assert_eq!(ipv4_prefix("300.1.1.1"), None);
    assert_eq!(ipv4_prefix("a.b.c.d"), None);
    let p = local_ip_prefixes(&strings(&["192.168.1.7", "10.0.0.2", "192.168.1.9"]), None);
    assert_eq!(p, strings(&["10.0.0", "192.168.1"]));
    assert_eq!(resolve_labeled_ip(" #23 ", &p).as_deref(), Some("10.0.0.23"));
    assert_eq!(resolve_labeled_ip("23", &[]), None);
    assert_eq!(format_visual_ip_ids(&strings(&["10.0.0.5", "10.1.0.5", "10.0.0.6"])), "#5 #6");
    assert_eq!(ip_suffix_badge("192.168.1.42").as_deref(), Some("#42"));
    assert_eq!(ip_suffix_badge("192.168.1.").as_deref(), Some("#1"));
    assert_eq!(ip_suffix_badge("..."), None);
}
