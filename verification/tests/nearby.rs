use nearsend::nearby::{
    favorite_tap, hydrate_from_cache, merge_endpoints, merge_scan, protocol_badge, row_name,
    row_tap, selected_count_text, should_start_first_scan, troubleshoot_notice, DeviceEndpoint,
    DiscoveredDevice, FavoriteTap, RowTap,
};
use nearsend::peer::PeerInfo;

fn peer(alias: &str, token: &str) -> PeerInfo {
    PeerInfo {
        alias: alias.to_string(),
        version: "2.1".to_string(),
        device_model: None,
        device_type: None,
        token: token.to_string(),
    }
}

fn found(alias: &str, token: &str, ip: &str) -> DiscoveredDevice {
    DiscoveredDevice { info: peer(alias, token), ip: ip.to_string(), port: 53317, https: false }
}

fn ep(ip: &str) -> DeviceEndpoint {
    DeviceEndpoint { ip: ip.to_string(), port: 53317, https: true }
}

#[test]
fn endpoints_are_filed_by_token() {
    let mut eps = vec![("a".to_string(), ep("10.0.0.1"))];
    merge_endpoints(&mut eps, &vec![found("A", "a", "10.0.0.9"), found("B", "", "10.0.0.2")]);
    assert_eq!(eps.len(), 2);
    assert_eq!(eps[0].0, "a");
    assert_eq!(eps[0].1.ip, "10.0.0.9");
    assert!(!eps[0].1.https);
    assert_eq!(eps[1].0, "10.0.0.2:53317");
}

#[test]
fn scans_merge_sort_and_filter() {
    let listed = vec![peer("Zed", "z"), peer("10.0.0.7", "ghost"), peer("Old", "o")];
    let mut eps = vec![("ghost".to_string(), ep("10.0.0.7"))];
    let scan = vec![
        found("Bob", "b", "10.0.0.3"),
        found("Old-new", "o", "10.0.0.4"),
        found("10.0.0.5", "x", "10.0.0.5"),
        found("Amy", "", "10.0.0.6"),
    ];
    let list = merge_scan(&listed, &mut eps, &scan);
    let names: Vec<&str> = list.iter().map(|p| p.alias.as_str()).collect();
    assert_eq!(names, vec!["Amy", "Bob", "Old-new", "Zed"]);
    let amy = list.iter().find(|p| p.alias == "Amy").unwrap();
    assert_eq!(amy.token, "10.0.0.6:53317");
    assert_eq!(eps.len(), 5);
}

#[test]
fn an_empty_cache_changes_nothing() {
    let listed = vec![peer("Zed", "z"), peer("Amy", "a")];
    let mut eps = vec![];
    let list = hydrate_from_cache(listed, &mut eps, &vec![]);
    let names: Vec<&str> = list.iter().map(|p| p.alias.as_str()).collect();
    assert_eq!(names, vec!["Zed", "Amy"]);
    assert!(eps.is_empty());
    let list = hydrate_from_cache(list, &mut eps, &vec![found("Bob", "b", "10.0.0.3")]);
    let names: Vec<&str> = list.iter().map(|p| p.alias.as_str()).collect();
    assert_eq!(names, vec!["Amy", "Bob", "Zed"]);
}

#[test]
fn device_rows() {
    assert_eq!(protocol_badge(None), "WebRTC");
    assert_eq!(protocol_badge(Some(&ep("h"))), "LAN • HTTPS");
    assert_eq!(row_name("Pad", Some("  ")), "Pad");
    assert_eq!(row_name("Pad", Some("Mine")), "Mine");
    assert!(matches!(row_tap(true, true, None), RowTap::Swallowed));
    match row_tap(false, false, None) {
        RowTap::Notice(m) => assert_eq!(m, "请先选择要发送的文件或文本"),
        _ => panic!("notice expected"),
    }
    match row_tap(false, true, Some(&ep("10.0.0.2"))) {
        RowTap::SendTo(ip, port) => {
            assert_eq!(ip, "10.0.0.2");
            assert_eq!(port, 53317);
        }
        _ => panic!("send expected"),
    }
    assert!(matches!(row_tap(false, true, None), RowTap::AskAddress));
    assert!(should_start_first_scan(false, false, 0));
    assert!(!should_start_first_scan(true, false, 0));
    assert_eq!(selected_count_text(3, false), "3 个文件已选择");
    assert_eq!(selected_count_text(3, true), "3 个文件");
    assert_eq!(troubleshoot_notice(), "请确认目标设备与本机在同一 Wi-Fi 网络。");
}

#[test]
fn favorite_buttons() {
    match favorite_tap("t", "Pad", true, None, None) {
        FavoriteTap::ConfirmRemove { token, alias } => {
            assert_eq!(token, "t");
            assert_eq!(alias, "Pad");
        }
        _ => panic!("confirm expected"),
    }
    match favorite_tap("t", "Pad", false, None, None) {
        FavoriteTap::Notice(m) => assert_eq!(m, "当前设备地址不可用，暂时无法添加到收藏夹。"),
        _ => panic!("notice expected"),
    }
    match favorite_tap("t", "Pad", false, None, Some(&ep("10.0.0.2"))) {
        FavoriteTap::Edit(f) => {
            assert_eq!(f.token, "t");
            assert_eq!(f.alias, "Pad");
            assert_eq!(f.ip, "10.0.0.2");
            assert!(f.https);
            assert!(!f.custom_alias);
        }
        _ => panic!("edit expected"),
    }
}
