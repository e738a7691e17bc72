use nearsend::history::{
    delete_entry_question, entry_actions, entry_info_rows, file_open_target, format_direction,
    format_entry_subline, format_kind, format_status, group_by_labels, icon_for_entry,
    is_openable_entry, missing_text_notice, resolve_text_content, status_badge_label,
    status_tone, text_preview, EntryAction, EntryIcon, HistoryEntry, HistoryEntryKind,
    OpenTarget, StatusTone, TransferDirection, TransferStatus,
};

fn entry(kind: HistoryEntryKind) -> HistoryEntry {
    HistoryEntry {
        id: "1".to_string(),
        file_name: "photo.png".to_string(),
        file_size: 2048,
        file_path: "/data/photo.png".to_string(),
        file_uri: None,
        kind,
        text_content: None,
        direction: TransferDirection::Receive,
        device_name: "Pad".to_string(),
        timestamp: 0,
        status: TransferStatus::Completed,
    }
}

#[test]
fn labels() {
    assert_eq!(format_direction(TransferDirection::Send), "发送");
    assert_eq!(format_kind(HistoryEntryKind::Text), "文本");
    assert_eq!(format_status(TransferStatus::InProgress), "传输中");
    assert_eq!(status_badge_label(TransferStatus::Completed), None);
    assert_eq!(status_badge_label(TransferStatus::Failed), Some("失败"));
    assert_eq!(status_tone(TransferStatus::Failed), StatusTone::Danger);
    assert_eq!(status_tone(TransferStatus::Skipped), StatusTone::Muted);
    assert_eq!(status_tone(TransferStatus::Pending), StatusTone::Primary);
}

#[test]
fn sublines_and_icons() {
    let f = entry(HistoryEntryKind::File);
    assert_eq!(format_entry_subline(&f), "接收 · 2.0 KB · Pad");
    assert_eq!(icon_for_entry(&f), EntryIcon::Download);
    let mut t = entry(HistoryEntryKind::Text);
    t.device_name = "  ".to_string();
    t.direction = TransferDirection::Send;
    assert_eq!(format_entry_subline(&t), "发送 · 文本");
    assert_eq!(icon_for_entry(&t), EntryIcon::BookOpen);
}

#[test]
fn opening_entries() {
    let mut f = entry(HistoryEntryKind::File);
    assert!(!is_openable_entry(&f, false));
    assert!(is_openable_entry(&f, true));
    assert!(matches!(file_open_target(&f, false), OpenTarget::Missing));
    assert!(matches!(file_open_target(&f, true), OpenTarget::Path(p) if p == "/data/photo.png"));
    f.file_uri = Some("content://a".to_string());
    assert!(is_openable_entry(&f, false));
    assert!(matches!(file_open_target(&f, true), OpenTarget::Uri(u) if u == "content://a"));
    let mut t = entry(HistoryEntryKind::Text);
    t.text_content = Some("  ".to_string());
    assert!(!is_openable_entry(&t, true));
    assert_eq!(resolve_text_content(&t).as_deref(), Some("photo.png"));
    t.text_content = Some("hi".to_string());
    assert_eq!(resolve_text_content(&t).as_deref(), Some("hi"));
    assert_eq!(missing_text_notice(), "该文本历史缺少内容，无法打开。");
}

#[test]
fn previews() {
    assert_eq!(text_preview("  "), None);
    assert_eq!(text_preview(" hi ").as_deref(), Some("hi"));
    let long = "字".repeat(161);
    let p = text_preview(&long).unwrap();
    assert_eq!(p.chars().count(), 161);
    assert!(p.ends_with('…'));
    assert_eq!(text_preview(&"字".repeat(160)).unwrap().chars().count(), 160);
}

#[test]
fn details_and_actions() {
    let mut f = entry(HistoryEntryKind::File);
    f.file_uri = Some("content://a".to_string());
    let rows = entry_info_rows(&f, "2024-01-02 03:04");
    let labels: Vec<&str> = rows.iter().map(|r| r.0.as_str()).collect();
    assert_eq!(labels, vec!["名称", "类型", "方向", "状态", "设备", "大小", "时间", "URI", "路径"]);
    assert_eq!(rows[5].1, "2.0 KB");
    assert_eq!(rows[6].1, "2024-01-02 03:04");
    let mut t = entry(HistoryEntryKind::Text);
    t.device_name = String::new();
    t.text_content = Some("hello".to_string());
    let rows = entry_info_rows(&t, "x");
    let labels: Vec<&str> = rows.iter().map(|r| r.0.as_str()).collect();
    assert_eq!(labels, vec!["名称", "类型", "方向", "状态", "大小", "时间", "内容"]);
    assert_eq!(delete_entry_question("a.txt"), "从历史记录中删除「a.txt」？");
    assert_eq!(
        entry_actions(true),
        vec![EntryAction::Open, EntryAction::Details, EntryAction::Delete]
    );
    assert_eq!(entry_actions(false), vec![EntryAction::Details, EntryAction::Delete]);
}

#[test]
fn grouping_keeps_order() {
    let groups = group_by_labels(
        vec![1, 2, 3, 4],
        vec!["今天".to_string(), "今天".to_string(), "昨天".to_string(), "今天".to_string()],
    );
    assert_eq!(groups.len(), 3);
    assert_eq!(groups[0], ("今天".to_string(), vec![1, 2]));
    assert_eq!(groups[1], ("昨天".to_string(), vec![3]));
    assert_eq!(groups[2], ("今天".to_string(), vec![4]));
}
