use nearsend::qr::{make_compact_qr, qr_or_placeholder, with_quiet_border};
use nearsend::send_flow::SelectedFileInfo;
use nearsend::share::{
    build_share_links, pin_hint, save_share_pin, set_require_pin, share_outcome, shared_entries,
    LinkSettings, SharedEntry,
};

fn settings(encryption: bool, require_pin: bool, pin: &str) -> LinkSettings {
    LinkSettings {
        encryption,
        require_pin,
        receive_pin: pin.to_string(),
        server_port: 53317,
    }
}

#[test]
fn links_point_at_each_local_address() {
    let ips = vec!["192.168.1.5".to_string(), "10.0.0.2".to_string()];
    let links = build_share_links(&settings(false, false, ""), &ips, "abc");
    assert_eq!(
        links,
        vec![
            "http://192.168.1.5:53317/share/abc".to_string(),
            "http://10.0.0.2:53317/share/abc".to_string(),
        ]
    );
}

#[test]
fn links_fall_back_to_the_loopback_address() {
    let links = build_share_links(&settings(true, false, ""), &vec![], "x");
    assert_eq!(links, vec!["https://127.0.0.1:53317/share/x".to_string()]);
}

#[test]
fn the_pin_travels_percent_encoded() {
    let ips = vec!["h".to_string()];
    let links = build_share_links(&settings(false, true, " 1 2/é~ "), &ips, "s");
    assert_eq!(links, vec!["http://h:53317/share/s?pin=1%202%2F%C3%A9~".to_string()]);
    let links = build_share_links(&settings(false, true, "   "), &ips, "s");
    assert_eq!(links, vec!["http://h:53317/share/s".to_string()]);
    let links = build_share_links(&settings(false, false, "1234"), &ips, "s");
    assert_eq!(links, vec!["http://h:53317/share/s".to_string()]);
}

#[test]
fn requiring_a_pin_sets_a_default_one() {
    let mut s = settings(false, false, " ");
    set_require_pin(&mut s, true);
    assert!(s.require_pin);
    assert_eq!(s.receive_pin, "123456");
    assert_eq!(pin_hint(&s).as_deref(), Some("123456"));
    let mut s = settings(false, false, "4321");
    set_require_pin(&mut s, true);
    assert_eq!(s.receive_pin, "4321");
    set_require_pin(&mut s, false);
    assert!(!s.require_pin);
    assert_eq!(s.receive_pin, "4321");
    assert_eq!(pin_hint(&s), None);
}

#[test]
fn typed_pins_are_trimmed_and_blank_ones_refused() {
    let mut s = settings(false, false, "1");
    assert!(!save_share_pin(&mut s, "  "));
    assert_eq!(s.receive_pin, "1");
    assert!(!s.require_pin);
    assert!(save_share_pin(&mut s, " 88 "));
    assert_eq!(s.receive_pin, "88");
    assert!(s.require_pin);
}

#[test]
fn shares_need_a_selection() {
    assert_eq!(
        shared_entries(&vec![]).unwrap_err(),
        "请先选择要发送的文件或文本"
    );
    let files = vec![
        SelectedFileInfo {
            path: String::new(),
            source_uri: None,
            name: String::new(),
            size: 2,
            file_type: "text/plain".to_string(),
            text_content: Some("hi".to_string()),
        },
        SelectedFileInfo {
            path: "/a".to_string(),
            source_uri: None,
            name: "a.txt".to_string(),
            size: 2,
            file_type: "text/plain".to_string(),
            text_content: None,
        },
    ];
    let entries = shared_entries(&files).unwrap();
    match &entries[0] {
        SharedEntry::Text { name, content } => {
            assert_eq!(name, "message.txt");
            assert_eq!(content, "hi");
        }
        _ => panic!("text expected"),
    }
    match &entries[1] {
        SharedEntry::File { name, path, file_type } => {
            assert_eq!(name, "a.txt");
            assert_eq!(path, "/a");
            assert_eq!(file_type, "text/plain");
        }
        _ => panic!("file expected"),
    }
    assert_eq!(share_outcome(Some("id".to_string())), Ok("id".to_string()));
    assert_eq!(share_outcome(None), Err("创建分享链接失败".to_string()));
}

#[test]
fn qr_codes_get_a_quiet_border() {
    let qr = make_compact_qr("http://192.168.1.5:53317/share/abc").unwrap();
    assert!(qr.size >= 25);
    assert_eq!(qr.modules.len(), qr.size * qr.size);
    for i in 0..qr.size {
        assert!(!qr.modules[i]);
        assert!(!qr.modules[i * qr.size]);
        assert!(!qr.modules[(qr.size - 1) * qr.size + i]);
    }
    // The finder pattern of the code starts dark right inside the border.
    assert!(qr.modules[2 * qr.size + 2]);
    assert!(make_compact_qr(&"x".repeat(8000)).is_none());
}

#[test]
fn borders_and_placeholders() {
    let src = vec![true; 21 * 21];
    let q = with_quiet_border(21, &src);
    assert_eq!(q.size, 25);
    assert!(!q.modules[0]);
    assert!(q.modules[2 * 25 + 2]);
    assert!(!q.modules[2 * 25 + 23]);
    let p = qr_or_placeholder(None);
    assert_eq!(p.size, 1);
    assert_eq!(p.modules, vec![false]);
}
