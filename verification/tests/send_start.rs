use nearsend::nearby::{
    complete_scan, finish_scan, merge_scan, scan_start, start_scan, DiscoveredDevice, ScanFlags,
};
use nearsend::peer::PeerInfo;
use nearsend::send::{SendSessionState, SendSessionStatus};
use nearsend::send_flow::{start_send, take_accepted, SelectedFileInfo, SendFileEntry};
use nearsend::share::needs_share_link;

fn idle() -> SendSessionState {
    SendSessionState {
        pending_send: false,
        session_status: SendSessionStatus::Idle,
        session_status_text: None,
        has_cancel_flag: false,
        has_active_context: false,
        active_transfer_id: None,
        last_send_ip: None,
        last_send_port: None,
    }
}

fn text_item(t: &str) -> SelectedFileInfo {
    SelectedFileInfo {
        path: String::new(),
        source_uri: None,
        name: "note".to_string(),
        size: t.len() as u64,
        file_type: "text/plain".to_string(),
        text_content: Some(t.to_string()),
    }
}

fn file_item(name: &str) -> SelectedFileInfo {
    SelectedFileInfo {
        path: format!("/data/{}", name),
        source_uri: None,
        name: name.to_string(),
        size: 10,
        file_type: "image/png".to_string(),
        text_content: None,
    }
}

#[test]
fn a_text_send_holds_no_transfer_id() {
    let mut s = idle();
    let st = start_send(&mut s, "10.0.0.2", 53317, &vec![text_item("hi")]).unwrap();
    assert!(!st.opens_progress);
    assert!(matches!(st.entries[0], SendFileEntry::Text { .. }));
    assert!(s.pending_send);
    assert_eq!(s.session_status, SendSessionStatus::Preparing);
    assert_eq!(s.active_transfer_id, None);
    assert_eq!(s.last_send_ip.as_deref(), Some("10.0.0.2"));
    assert_eq!(s.last_send_port, Some(53317));
}

#[test]
fn a_file_send_holds_a_transfer_id_and_opens_progress() {
    let mut s = idle();
    let st = start_send(&mut s, "10.0.0.2", 53317, &vec![text_item("hi"), file_item("a.png")]).unwrap();
    assert!(st.opens_progress);
    assert_eq!(st.entries.len(), 2);
    assert_eq!(s.active_transfer_id.as_ref().map(|t| t.len()), Some(36));
}

#[test]
fn a_refused_send_leaves_the_session() {
    let mut s = idle();
    assert_eq!(start_send(&mut s, "  ", 53317, &vec![file_item("a")]).err().unwrap(), "目标地址不能为空。");
    assert!(!s.pending_send);
    assert_eq!(start_send(&mut s, "10.0.0.2", 53317, &vec![]).err().unwrap(), "请先选择要发送的内容。");
    s.pending_send = true;
    assert_eq!(
        start_send(&mut s, "10.0.0.2", 53317, &vec![file_item("a")]).err().unwrap(),
        "正在发送中，请稍后再试。"
    );
    assert_eq!(s.session_status, SendSessionStatus::Idle);
}

#[test]
fn scans_start_once_and_wait_at_least_200_ms() {
    assert!(scan_start(true, true, 5000).is_none());
    let st = scan_start(false, true, 100).unwrap();
    assert!(st.clear_lists);
    assert_eq!(st.timeout_ms, 200);
    let st = scan_start(false, false, 3000).unwrap();
    assert!(!st.clear_lists);
    assert_eq!(st.timeout_ms, 3000);
}

#[test]
fn a_share_is_created_only_once() {
    assert!(needs_share_link(&None, &None));
    assert!(!needs_share_link(&Some("id".to_string()), &None));
    assert!(!needs_share_link(&None, &Some("创建分享链接失败".to_string())));
}

fn peer(alias: &str, token: &str) -> PeerInfo {
    PeerInfo {
        alias: alias.to_string(),
        version: "2.1".to_string(),
        device_model: None,
        device_type: None,
        token: token.to_string(),
    }
}

#[test]
fn a_scan_lists_each_token_once() {
    let listed = vec![peer("Bob", "b"), peer("Ann", "a")];
    let found = vec![
        DiscoveredDevice { info: peer("Ann 2", "a"), ip: "10.0.0.3".to_string(), port: 53317, https: false },
        DiscoveredDevice { info: peer("Cid", ""), ip: "10.0.0.4".to_string(), port: 53317, https: true },
        DiscoveredDevice { info: peer("10.0.0.5", "e"), ip: "10.0.0.5".to_string(), port: 53317, https: false },
    ];
    let mut eps = Vec::new();
    let r = merge_scan(&listed, &mut eps, &found);
    let names: Vec<&str> = r.iter().map(|p| p.alias.as_str()).collect();
    assert_eq!(names, vec!["Ann 2", "Bob", "Cid"]);
    let tokens: Vec<&str> = r.iter().map(|p| p.token.as_str()).collect();
    assert_eq!(tokens, vec!["a", "b", "10.0.0.4:53317"]);
    assert_eq!(eps.len(), 3);
}

#[test]
fn accepted_items_are_taken_once() {
    let mut pool = vec![
        ("x".to_string(), SendFileEntry::Text { content: "one".to_string() }),
        ("y".to_string(), SendFileEntry::Text { content: "two".to_string() }),
    ];
    match take_accepted(&mut pool, "y") {
        Some(SendFileEntry::Text { content }) => assert_eq!(content, "two"),
        _ => panic!("expected the second item"),
    }
    assert_eq!(pool.len(), 1);
    assert!(take_accepted(&mut pool, "y").is_none());
    assert!(take_accepted(&mut pool, "z").is_none());
    assert_eq!(pool.len(), 1);
    assert!(take_accepted(&mut pool, "x").is_some());
    assert!(pool.is_empty());
}

#[test]
fn a_scan_starts_then_completes() {
    let mut flags = ScanFlags { scanning: false, has_scanned_once: false };
    let st = start_scan(&mut flags, false, 50).unwrap();
    assert_eq!(st.timeout_ms, 200);
    assert_eq!(flags, ScanFlags { scanning: true, has_scanned_once: true });
    assert!(start_scan(&mut flags, true, 500).is_none());
    assert_eq!(flags, ScanFlags { scanning: true, has_scanned_once: true });
    let mut eps = Vec::new();
    let found = vec![DiscoveredDevice { info: peer("Dan", "d"), ip: "10.0.0.7".to_string(), port: 53317, https: false }];
    let r = complete_scan(&mut flags, &vec![], &mut eps, &found);
    assert_eq!(r.len(), 1);
    assert_eq!(r[0].token, "d");
    assert_eq!(eps.len(), 1);
    assert_eq!(flags, ScanFlags { scanning: false, has_scanned_once: true });
    finish_scan(&mut flags);
    assert!(!flags.scanning);
}
