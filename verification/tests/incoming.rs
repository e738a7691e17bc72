use nearsend::history::{HistoryEntry, HistoryEntryKind, TransferDirection, TransferStatus};
use nearsend::incoming::{
    close_cancels_transfer, close_label, history_text_session, inbox_totals, incoming_actions,
    item_row, message_content, sender_alias, sender_model, sender_tag, status_caption,
    status_emblem, status_title, subtitle, IncomingActions, InboxItem, InboxSession,
    StatusEmblem, Tone,
};

fn item(id: &str, size: u64, got: u64, speed: u64) -> InboxItem {
    InboxItem {
        file_id: id.to_string(),
        file_name: format!("{}.bin", id),
        size,
        file_type: "application/octet-stream".to_string(),
        bytes_received: got,
        speed_bytes_per_sec: speed,
        saved_path: None,
        saved_uri: None,
        text_content: None,
    }
}

fn session(items: Vec<InboxItem>, selected: &[&str]) -> InboxSession {
    InboxSession {
        session_id: "s".to_string(),
        sender_alias: "Mate".to_string(),
        sender_device_model: None,
        sender_fingerprint: "abc".to_string(),
        items,
        selected_file_ids: selected.iter().map(|s| s.to_string()).collect(),
        is_message_only: false,
        cancelled: false,
        completed: false,
        decision_submitted: false,
        direction: TransferDirection::Receive,
    }
}

#[test]
fn sender_line() {
    assert_eq!(sender_alias(None), "NearSend");
    assert_eq!(sender_model(None), "OpenHarmony");
    assert_eq!(sender_tag(None), "#--");
    let mut s = session(vec![], &[]);
    assert_eq!(sender_alias(Some(&s)), "Mate");
    assert_eq!(sender_tag(Some(&s)), "#94");
    s.sender_alias = String::new();
    assert_eq!(sender_alias(Some(&s)), "NearSend");
    s.sender_device_model = Some("P60".to_string());
    assert_eq!(sender_model(Some(&s)), "P60");
}

#[test]
fn a_request_waiting_for_a_decision() {
    let s = session(vec![item("a", 2048, 0, 0), item("b", 1024, 0, 0)], &["a", "a"]);
    let t = inbox_totals(&s);
    assert_eq!(t.total_size, 3072);
    assert_eq!(t.selected_size, 2048);
    assert_eq!(t.selected_count, 1);
    assert_eq!(status_title(Some(&s), t), "准备接收文件");
    assert_eq!(status_caption(Some(&s), t, "0"), "已选 1/2 · 2.0 KB");
    assert_eq!(subtitle(Some(&s)), "发送给你 2 个文件");
    assert_eq!(incoming_actions(Some(&s)), IncomingActions::Decide);
    assert!(close_cancels_transfer(Some(&s)));
    let all = session(vec![item("a", 10, 0, 0)], &["a"]);
    let t = inbox_totals(&all);
    assert_eq!(status_caption(Some(&all), t, "0"), "全部已选 · 10 B");
}

#[test]
fn a_transfer_in_progress() {
    let mut s = session(vec![item("a", 2048, 1024, 512), item("b", 2048, 0, 0)], &["a", "b"]);
    s.decision_submitted = true;
    let t = inbox_totals(&s);
    assert_eq!(t.received_size, 1024);
    assert_eq!(t.active_speed, 512);
    assert_eq!(status_title(Some(&s), t), "正在接收");
    assert_eq!(status_caption(Some(&s), t, "25"), "1.0 KB / 4.0 KB · 25% · 512 B/s");
    assert_eq!(incoming_actions(Some(&s)), IncomingActions::CancelReceiving);
    let row = item_row(&s.items[0], &s.selected_file_ids, false, false);
    assert!(row.receiving && row.active);
    assert_eq!(row.tone, Tone::Primary);
    assert_eq!(row.status, "1.0 KB / 2.0 KB · 512 B/s");
    let row = item_row(&s.items[1], &s.selected_file_ids, false, false);
    assert_eq!(row.status, "2.0 KB");
    let row = item_row(&s.items[1], &vec![], false, false);
    assert_eq!(row.status, "未选择");
    assert_eq!(row.tone, Tone::Muted);
    assert!(!row.active);
}

#[test]
fn waiting_for_the_sender_and_finishing() {
    let mut s = session(vec![item("a", 10, 0, 0)], &["a"]);
    s.decision_submitted = true;
    let t = inbox_totals(&s);
    assert_eq!(status_title(Some(&s), t), "等待对方发送");
    assert_eq!(status_caption(Some(&s), t, "0"), "已接受 1 个文件，正在建立传输");
    s.completed = true;
    let t = inbox_totals(&s);
    assert_eq!(status_title(Some(&s), t), "接收完成");
    assert_eq!(status_caption(Some(&s), t, "100"), "已处理 1 个文件 · 10 B");
    assert_eq!(incoming_actions(Some(&s)), IncomingActions::Close);
    assert_eq!(close_label(true), "完成");
    assert!(!close_cancels_transfer(Some(&s)));
    assert_eq!(status_emblem(Some(&s)), StatusEmblem::Done);
    let row = item_row(&s.items[0], &s.selected_file_ids, false, true);
    assert_eq!(row.status, "已保存");
    assert_eq!(row.tone, Tone::Success);
    s.cancelled = true;
    assert_eq!(status_title(Some(&s), t), "传输已取消");
    assert_eq!(status_emblem(Some(&s)), StatusEmblem::Cancelled);
}

#[test]
fn a_message_and_an_empty_page() {
    let mut m = item("m", 5, 5, 0);
    m.file_type = "text/plain".to_string();
    m.text_content = Some("hello".to_string());
    let mut s = session(vec![m], &[]);
    s.is_message_only = true;
    assert_eq!(message_content(&s).as_deref(), Some("hello"));
    let t = inbox_totals(&s);
    assert_eq!(status_title(Some(&s), t), "收到一条消息");
    assert_eq!(status_caption(Some(&s), t, "0"), "来自 Mate");
    assert_eq!(subtitle(Some(&s)), "发送给你了一条消息：");
    s.direction = TransferDirection::Send;
    assert_eq!(subtitle(Some(&s)), "你发送给 Mate 的消息：");
    assert_eq!(incoming_actions(Some(&s)), IncomingActions::Close);
    let row = item_row(&s.items[0], &vec![], false, false);
    assert!(row.is_text);
    let empty = nearsend::incoming::InboxTotals {
        total_size: 0,
        received_size: 0,
        selected_size: 0,
        selected_count: 0,
        active_speed: 0,
    };
    assert_eq!(status_title(None, empty), "等待接收内容");
    assert_eq!(status_caption(None, empty, "0"), "保持此页面打开以继续接收");
    assert_eq!(subtitle(None), "等待接收内容");
    assert_eq!(close_label(false), "关闭");
}

#[test]
fn text_history_entries_reopen_as_messages() {
    let entry = HistoryEntry {
        id: "42".to_string(),
        file_name: "note".to_string(),
        file_size: 5,
        file_path: String::new(),
        file_uri: None,
        kind: HistoryEntryKind::Text,
        text_content: Some("hello".to_string()),
        direction: TransferDirection::Send,
        device_name: "Pad".to_string(),
        timestamp: 0,
        status: TransferStatus::Completed,
    };
    let s = history_text_session(&entry).unwrap();
    assert_eq!(s.session_id, "history-text-42");
    assert_eq!(s.items[0].file_id, "history-item-42");
    assert_eq!(s.items[0].text_content.as_deref(), Some("hello"));
    assert_eq!(s.sender_device_model.as_deref(), Some("NearSend"));
    assert!(s.is_message_only && s.completed);
    let mut empty = entry.clone();
    empty.text_content = None;
    empty.file_name = " ".to_string();
    assert_eq!(
        history_text_session(&empty).unwrap_err(),
        "该文本历史缺少内容，无法打开。"
    );
}
