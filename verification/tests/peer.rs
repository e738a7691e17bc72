use nearsend::peer::{
    alias_from_seed, device_icon, device_type_from_wire, device_type_wire_name, generate_random_alias,
    host_port_text, normalize_device_type_label, normalize_peer_info, normalized_device_model,
    normalized_peer_token, parse_device_type, peer_from_register_reply, should_display_peer,
    DeviceIcon, DeviceType, PeerInfo, RegisterReply,
};

fn info(alias: &str, token: &str) -> PeerInfo {
    PeerInfo {
        alias: alias.to_string(),
        version: "2.1".to_string(),
        device_model: None,
        device_type: None,
        token: token.to_string(),
    }
}

#[test]
fn device_type_settings() {
    assert_eq!(normalize_device_type_label("  MoBiLe "), "mobile");
    assert_eq!(parse_device_type("Mobile"), Some(DeviceType::Mobile));
    assert_eq!(parse_device_type("server"), Some(DeviceType::Server));
    assert_eq!(parse_device_type("fridge"), Some(DeviceType::Desktop));
}

#[test]
fn wire_names_round_trip() {
    for d in [DeviceType::Mobile, DeviceType::Desktop, DeviceType::Web, DeviceType::Headless, DeviceType::Server] {
        assert_eq!(device_type_from_wire(Some(device_type_wire_name(d))), Some(d));
    }
    assert_eq!(device_type_from_wire(Some("WEB")), Some(DeviceType::Web));
    assert_eq!(device_type_from_wire(Some("Web")), None);
    assert_eq!(device_type_from_wire(None), None);
    assert_eq!(device_icon(None), DeviceIcon::Smartphone);
    assert_eq!(device_icon(Some(DeviceType::Headless)), DeviceIcon::Server);
    assert_eq!(device_icon(Some(DeviceType::Desktop)), DeviceIcon::Monitor);
}

#[test]
fn models_and_tokens() {
    assert_eq!(normalized_device_model("  ").as_deref(), Some("OpenHarmony"));
    assert_eq!(normalized_device_model(" P60 ").as_deref(), Some("P60"));
    assert_eq!(host_port_text("1.2.3.4", 53317), "1.2.3.4:53317");
    assert_eq!(normalized_peer_token(&info("a", ""), "1.2.3.4", 80), "1.2.3.4:80");
    assert_eq!(normalized_peer_token(&info("a", "tok"), "1.2.3.4", 80), "tok");
    let n = normalize_peer_info(info("a", ""), "h", 1);
    assert_eq!(n.token, "h:1");
    assert_eq!(n.alias, "a");
}

#[test]
fn which_peers_are_listed() {
    assert!(!should_display_peer(&info("  ", "t"), None));
    assert!(!should_display_peer(&info(" 10.0.0.2 ", "t"), Some("10.0.0.2")));
    assert!(should_display_peer(&info("Pad", "t"), Some("10.0.0.2")));
    assert!(should_display_peer(&info("10.0.0.2", "t"), Some("  ")));
    assert!(should_display_peer(&info("Pad", "t"), None));
}

#[test]
fn peers_remembered_from_an_introduction() {
    let reply = RegisterReply {
        alias: "Mate".to_string(),
        version: None,
        device_model: Some("M".to_string()),
        device_type: Some("MOBILE".to_string()),
        token: Some("tok".to_string()),
        fingerprint: Some("fp".to_string()),
    };
    let p = peer_from_register_reply(reply, "10.0.0.9", 53317, "https");
    assert_eq!(p.info.version, "1.0");
    assert_eq!(p.info.token, "fp");
    assert_eq!(p.info.device_type, Some(DeviceType::Mobile));
    assert!(p.https);
    let reply = RegisterReply {
        alias: "X".to_string(),
        version: Some("2.0".to_string()),
        device_model: None,
        device_type: None,
        token: None,
        fingerprint: None,
    };
    let p = peer_from_register_reply(reply, "h", 1, "http");
    assert_eq!(p.info.token, "");
    assert_eq!(p.info.version, "2.0");
    assert!(!p.https);
}

#[test]
fn aliases_from_seeds() {
    let mut seed = [0u8; 16];
    assert_eq!(alias_from_seed(seed), "可爱的苹果");
    seed[1] = 1;
    seed[3] = 2;
    assert_eq!(alias_from_seed(seed), "漂亮的香蕉");
    seed[0] = 1;
    seed[1] = 0;
    seed[2] = 1;
    seed[3] = 0;
    // 256 % 38 = 28, 256 % 26 = 22
    assert_eq!(alias_from_seed(seed), "强大的南瓜");
    let a = generate_random_alias();
    assert!(a.contains('的'));
}
