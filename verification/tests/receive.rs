use nearsend::history::{HistoryEntryKind, TransferDirection};
use nearsend::modes::{QuickSaveFlags, QuickSaveMode};
use nearsend::peer::{DeviceIcon, DeviceType, PeerInfo};
use nearsend::receive::{
    apply_quick_save_mode, completed_auto_finishes, file_received_opens_page, is_message_like_prepared,
    prepared_decision, quick_save_chip_label, quick_save_notice, receive_visual_id,
    received_history_entry, server_status_text, visual_tag, IncomingFileMeta, ReceiveDialog,
};

fn meta(id: &str, file_type: &str, size: u64, preview: Option<&str>) -> IncomingFileMeta {
    IncomingFileMeta {
        file_id: id.to_string(),
        file_name: format!("{}.bin", id),
        size,
        file_type: file_type.to_string(),
        preview: preview.map(|p| p.to_string()),
    }
}

fn flags(quick_save: bool, quick_save_favorites: bool) -> QuickSaveFlags {
    QuickSaveFlags { quick_save, quick_save_favorites }
}

#[test]
fn messages_are_one_text_with_preview() {
    assert!(is_message_like_prepared(&vec![meta("a", "text/plain", 2, Some("hi"))]));
    assert!(!is_message_like_prepared(&vec![meta("a", "text/plain", 2, None)]));
    assert!(!is_message_like_prepared(&vec![meta("a", "image/png", 2, Some("x"))]));
    assert!(!is_message_like_prepared(&vec![
        meta("a", "text/plain", 2, Some("hi")),
        meta("b", "text/plain", 2, Some("hi")),
    ]));
}

#[test]
fn quick_save_decides_what_is_accepted() {
    let files = vec![meta("a", "image/png", 2, None)];
    let favorites = vec!["fp-1".to_string()];
    let d = prepared_decision(&files, "fp-2", &favorites, flags(false, false));
    assert!(!d.accept_all && d.open_page);
    let d = prepared_decision(&files, "fp-2", &favorites, flags(true, false));
    assert!(d.accept_all && !d.open_page);
    let d = prepared_decision(&files, "fp-1", &favorites, flags(false, true));
    assert!(d.accept_all);
    let d = prepared_decision(&files, "fp-2", &favorites, flags(false, true));
    assert!(!d.accept_all);
    let msg = vec![meta("m", "text/plain", 2, Some("hi"))];
    let d = prepared_decision(&msg, "fp-1", &favorites, flags(true, true));
    assert!(!d.accept_all && d.open_page);
}

#[test]
fn received_files_open_the_page_unless_quick_saved() {
    let favorites = vec!["fp".to_string()];
    assert!(!file_received_opens_page(false, false, "fp", &favorites, flags(false, false)));
    assert!(file_received_opens_page(true, false, "x", &favorites, flags(false, true)));
    assert!(!file_received_opens_page(true, false, "fp", &favorites, flags(false, true)));
    assert!(file_received_opens_page(true, true, "fp", &favorites, flags(true, true)));
    assert!(completed_auto_finishes(true, false));
    assert!(!completed_auto_finishes(true, true));
    assert!(!completed_auto_finishes(false, false));
}

#[test]
fn received_entries() {
    let e = received_history_entry(
        "id".to_string(),
        "text/plain",
        "m.txt",
        3,
        Some("hey".to_string()),
        None,
        Some("content://x".to_string()),
        "Phone",
        9,
    );
    assert_eq!(e.kind, HistoryEntryKind::Text);
    assert_eq!(e.file_name, "hey");
    assert_eq!(e.text_content.as_deref(), Some("hey"));
    assert_eq!(e.file_path, "");
    assert_eq!(e.file_uri.as_deref(), Some("content://x"));
    assert_eq!(e.direction, TransferDirection::Receive);
    let f = received_history_entry(
        "id2".to_string(),
        "image/png",
        "p.png",
        3,
        Some("ignored".to_string()),
        Some("/d/p.png".to_string()),
        None,
        "Phone",
        9,
    );
    assert_eq!(f.kind, HistoryEntryKind::File);
    assert_eq!(f.file_name, "p.png");
    assert_eq!(f.text_content, None);
    assert_eq!(f.file_path, "/d/p.png");
    let blank = received_history_entry(
        "id3".to_string(),
        "text/plain",
        "n.txt",
        0,
        Some("  ".to_string()),
        None,
        None,
        "",
        0,
    );
    assert_eq!(blank.file_name, "n.txt");
}

#[test]
fn visual_tags() {
    assert_eq!(visual_tag(""), "--");
    assert_eq!(visual_tag("abc"), "94");
    assert_eq!(visual_tag("a"), "97");
    assert_eq!(visual_tag("\u{1}"), "01");
    assert_eq!(visual_tag("é"), "64");
}

#[test]
fn receive_tab_texts() {
    assert_eq!(receive_visual_id(false, &vec!["10.0.0.5".to_string()]), "离线");
    assert_eq!(receive_visual_id(true, &vec![]), "离线");
    assert_eq!(
        receive_visual_id(true, &vec!["10.0.0.5".to_string(), "192.168.1.5".to_string(), "10.1.1.7".to_string()]),
        "#5 #7"
    );
    assert_eq!(server_status_text(true), "正在接收");
    assert_eq!(server_status_text(false), "接收服务已暂停");
    assert_eq!(quick_save_chip_label(0), "关");
    assert_eq!(quick_save_chip_label(1), "收藏夹");
    assert_eq!(quick_save_chip_label(2), "开");
    assert!(quick_save_notice(QuickSaveMode::Off).is_none());
    let (title, lines) = quick_save_notice(QuickSaveMode::Favorites).unwrap();
    assert_eq!(title, "自动保存来自“收藏夹(白名单)”设备的文件");
    assert_eq!(lines.len(), 3);
    let (title, lines) = quick_save_notice(QuickSaveMode::On).unwrap();
    assert_eq!(title, "自动保存");
    assert_eq!(lines.len(), 1);
}

#[test]
fn picking_a_quick_save_mode_stores_its_switches() {
    let mut f = flags(true, true);
    let mut m = QuickSaveMode::On;
    apply_quick_save_mode(&mut f, &mut m, QuickSaveMode::Favorites);
    assert_eq!(m, QuickSaveMode::Favorites);
    assert_eq!(f, flags(false, true));
    apply_quick_save_mode(&mut f, &mut m, QuickSaveMode::Off);
    assert_eq!(f, flags(false, false));
}

fn sender() -> PeerInfo {
    PeerInfo {
        alias: "Mate".to_string(),
        version: "2.1".to_string(),
        device_model: Some("X".to_string()),
        device_type: Some(DeviceType::Web),
        token: "t".to_string(),
    }
}

#[test]
fn request_dialog_ticks_and_sums() {
    let files = vec![meta("a", "x", 100, None), meta("b", "x", 20, None), meta("c", "x", 3, None)];
    let mut d = ReceiveDialog::new(sender(), files, "s1".to_string());
    assert_eq!(d.selected_files, vec![true, true, true]);
    assert_eq!(d.selected_count(), 3);
    assert_eq!(d.selected_total_size(), 123);
    d.toggle_file(1);
    assert_eq!(d.selected_count(), 2);
    assert_eq!(d.selected_total_size(), 103);
    d.toggle_file(1);
    assert_eq!(d.selected_files, vec![true, true, true]);
    d.toggle_file(7);
    assert_eq!(d.selected_count(), 3);
    assert!(d.is_file_selected(9));
    assert_eq!(d.sender_model(), "X");
    assert_eq!(d.sender_icon(), DeviceIcon::Globe);
}
