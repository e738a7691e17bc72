use nearsend::history::{HistoryEntryKind, TransferDirection, TransferStatus};
use nearsend::modes::SendMode;
use nearsend::send::SendSessionStatus;
use nearsend::send_flow::{
    assign_item_ids, build_offers, cancel_schemes, cancel_url, clears_selection_after_send,
    ending_report, entries_for_selection, has_binary_file, is_single_text_message, next_upload,
    prepare_action, prepare_step, prepare_url, register_url, sent_history_entries,
    start_negotiation, target_device_name, transfer_files, transfer_title, transfer_total_bytes,
    upload_content_length, upload_content_type, upload_ending, upload_url, PrepareAction,
    PrepareEvent, PrepareStep, Route, SelectedFileInfo, SendEnding, SendFileEntry, UploadResult,
};

fn text_item(t: &str) -> SelectedFileInfo {
    SelectedFileInfo {
        path: String::new(),
        source_uri: None,
        name: "note".to_string(),
        size: t.len() as u64,
        file_type: "text/plain".to_string(),
        text_content: Some(t.to_string()),
    }
}

fn file_item(name: &str, size: u64) -> SelectedFileInfo {
    SelectedFileInfo {
        path: format!("/data/{}", name),
        source_uri: Some(format!("file:///data/{}", name)),
        name: name.to_string(),
        size,
        file_type: "image/png".to_string(),
        text_content: None,
    }
}

#[test]
fn a_single_text_is_offered_with_its_preview() {
    let entries = entries_for_selection(&vec![text_item("你好")]);
    assert!(is_single_text_message(&entries));
    assert!(!has_binary_file(&entries));
    let items = assign_item_ids(entries);
    assert_eq!(items.len(), 1);
    assert_eq!(items[0].0.len(), 36);
    assert_eq!(items[0].0.chars().nth(8), Some('-'));
    let offers = build_offers(&items);
    assert_eq!(offers[0].file_name, "message.txt");
    assert_eq!(offers[0].file_type, "text/plain");
    assert_eq!(offers[0].size, 6);
    assert_eq!(offers[0].preview.as_deref(), Some("你好"));
    assert_eq!(offers[0].id, items[0].0);
}

#[test]
fn mixed_selections_have_no_preview() {
    let entries = entries_for_selection(&vec![text_item("hi"), file_item("a.png", 10)]);
    assert!(!is_single_text_message(&entries));
    assert!(has_binary_file(&entries));
    let items = assign_item_ids(entries);
    assert_ne!(items[0].0, items[1].0);
    let offers = build_offers(&items);
    assert_eq!(offers[0].preview, None);
    assert_eq!(offers[1].file_name, "a.png");
    assert_eq!(offers[1].size, 10);
    assert_eq!(offers[1].file_type, "image/png");
    assert_eq!(offers[1].preview, None);
}

#[test]
fn upload_headers() {
    let t = SendFileEntry::Text { content: "é".to_string() };
    assert_eq!(upload_content_type(&t), "text/plain");
    assert_eq!(upload_content_length(&t), 2);
    let f = SendFileEntry::File {
        path: "/x".to_string(),
        name: "x".to_string(),
        size: 99,
        file_type: "video/mp4".to_string(),
    };
    assert_eq!(upload_content_type(&f), "video/mp4");
    assert_eq!(upload_content_length(&f), 99);
}

#[test]
fn progress_shows_only_files() {
    let items = vec![
        ("a".to_string(), SendFileEntry::Text { content: "x".to_string() }),
        (
            "b".to_string(),
            SendFileEntry::File {
                path: "/b".to_string(),
                name: "b.bin".to_string(),
                size: 1000,
                file_type: "application/octet-stream".to_string(),
            },
        ),
        (
            "c".to_string(),
            SendFileEntry::File {
                path: "/c".to_string(),
                name: "c.bin".to_string(),
                size: 24,
                file_type: "application/octet-stream".to_string(),
            },
        ),
    ];
    let files = transfer_files(&items);
    assert_eq!(files.len(), 2);
    assert_eq!(files[0].file_id, "b");
    assert_eq!(transfer_total_bytes(&files), 1024);
    assert_eq!(transfer_title(&files), "2 个项目");
    assert_eq!(transfer_title(&files[..1].to_vec()), "b.bin");
}

#[test]
fn urls_of_the_endpoints() {
    assert_eq!(
        prepare_url(Route::V2Http, "10.0.0.2", 53317),
        "http://10.0.0.2:53317/api/localsend/v2/prepare-upload"
    );
    assert_eq!(
        prepare_url(Route::V3Https, "10.0.0.2", 8),
        "https://10.0.0.2:8/api/localsend/v3/prepare-upload"
    );
    assert_eq!(
        register_url("https", "h", 1),
        "https://h:1/api/localsend/v2/register"
    );
    assert_eq!(upload_url("http", "h", 2), "http://h:2/api/localsend/v2/upload");
    assert_eq!(cancel_url("http", "h", 3), "http://h:3/api/localsend/v2/cancel");
    assert_eq!(cancel_schemes(None), vec!["http".to_string(), "https".to_string()]);
    assert_eq!(cancel_schemes(Some("https".to_string())), vec!["https".to_string()]);
}

#[test]
fn prepare_statuses() {
    assert_eq!(prepare_action(204, true), PrepareAction::NoUploadNeeded);
    assert_eq!(prepare_action(204, false), PrepareAction::ReadSession);
    assert_eq!(prepare_action(200, true), PrepareAction::ReadSession);
    assert_eq!(prepare_action(401, true), PrepareAction::AskPin);
    assert_eq!(prepare_action(403, false), PrepareAction::Declined);
    assert_eq!(prepare_action(409, true), PrepareAction::RecipientBusy);
    assert_eq!(prepare_action(429, true), PrepareAction::TooManyAttempts);
    assert_eq!(prepare_action(500, true), PrepareAction::TryNext);
}

#[test]
fn routes_are_tried_in_order() {
    let mut n = start_negotiation();
    assert_eq!(n.route, Route::V2Http);
    assert_eq!(prepare_step(&mut n, PrepareEvent::Unreachable), PrepareStep::StartRoute);
    assert_eq!(n.route, Route::V2Https);
    assert_eq!(prepare_step(&mut n, PrepareEvent::Replied(404)), PrepareStep::SetUpLegacy);
    assert_eq!(n.route, Route::V3Http);
    assert_eq!(prepare_step(&mut n, PrepareEvent::BodyUnreadable), PrepareStep::StartRoute);
    assert_eq!(n.route, Route::V3Https);
    assert_eq!(
        prepare_step(&mut n, PrepareEvent::Unreachable),
        PrepareStep::Finish(SendEnding::NoRoute)
    );
}

#[test]
fn pin_prompts_say_when_a_pin_was_wrong() {
    let mut n = start_negotiation();
    assert_eq!(
        prepare_step(&mut n, PrepareEvent::Replied(401)),
        PrepareStep::AskPin { show_invalid_pin: false }
    );
    assert_eq!(
        prepare_step(&mut n, PrepareEvent::PinAnswered(Some("1234".to_string()))),
        PrepareStep::Post
    );
    assert_eq!(n.pin.as_deref(), Some("1234"));
    assert_eq!(
        prepare_step(&mut n, PrepareEvent::Replied(401)),
        PrepareStep::AskPin { show_invalid_pin: true }
    );
    assert_eq!(
        prepare_step(&mut n, PrepareEvent::PinAnswered(None)),
        PrepareStep::Finish(SendEnding::PinCancelled)
    );
}

#[test]
fn a_new_route_forgets_the_pin() {
    let mut n = start_negotiation();
    prepare_step(&mut n, PrepareEvent::Replied(401));
    prepare_step(&mut n, PrepareEvent::PinAnswered(Some("1".to_string())));
    assert_eq!(prepare_step(&mut n, PrepareEvent::Replied(500)), PrepareStep::StartRoute);
    assert_eq!(n.pin, None);
    assert!(n.pin_first_attempt);
}

#[test]
fn sessions_and_refusals() {
    let mut n = start_negotiation();
    assert_eq!(prepare_step(&mut n, PrepareEvent::Replied(200)), PrepareStep::ReadSession);
    assert_eq!(prepare_step(&mut n, PrepareEvent::SessionRead), PrepareStep::Upload);
    assert_eq!(
        prepare_step(&mut n, PrepareEvent::Replied(204)),
        PrepareStep::Finish(SendEnding::Completed)
    );
    assert_eq!(
        prepare_step(&mut n, PrepareEvent::Replied(403)),
        PrepareStep::Finish(SendEnding::Declined)
    );
}

#[test]
fn ending_reports() {
    let r = ending_report(SendEnding::Declined, "403 Forbidden");
    assert_eq!(r.status, SendSessionStatus::Declined);
    assert_eq!(r.message, "发送失败（403 Forbidden）");
    assert_eq!(r.notice.as_deref(), Some("对方已拒绝本次传输请求。"));
    assert_eq!(r.transfer_status, Some(TransferStatus::Failed));

    let r = ending_report(SendEnding::UploadRejected, "500 Internal Server Error");
    assert_eq!(r.message, "发送失败（上传状态 500 Internal Server Error）");
    assert_eq!(
        r.notice.as_deref(),
        Some("发送失败：文件上传状态异常（500 Internal Server Error）。")
    );

    let r = ending_report(SendEnding::PinCancelled, "");
    assert_eq!(r.status, SendSessionStatus::CancelledByUser);
    assert_eq!(r.message, "已取消输入 PIN");
    assert_eq!(r.notice.as_deref(), Some("已取消输入 PIN。"));
    assert_eq!(r.transfer_status, None);

    let r = ending_report(SendEnding::Completed, "");
    assert_eq!(r.status, SendSessionStatus::Completed);
    assert_eq!(r.message, "发送完成");
    assert_eq!(r.notice, None);
    assert_eq!(r.transfer_status, Some(TransferStatus::Completed));

    let r = ending_report(SendEnding::Cancelled, "");
    assert_eq!(r.message, "已取消发送");
    assert_eq!(r.transfer_status, Some(TransferStatus::Cancelled));

    let r = ending_report(SendEnding::MissingCertificate, "");
    assert_eq!(r.status, SendSessionStatus::Failed);
    assert_eq!(r.message, "发送失败（缺少证书）");
    assert_eq!(r.notice.as_deref(), Some("发送失败：本端证书不可用。"));

    let r = ending_report(SendEnding::NoRoute, "");
    assert_eq!(r.message, "发送失败（准备阶段）");
    assert_eq!(r.notice.as_deref(), Some("发送失败，请检查对端状态后重试。"));
}

#[test]
fn uploads() {
    assert_eq!(upload_ending(UploadResult::Accepted, Route::V2Http), None);
    assert_eq!(
        upload_ending(UploadResult::Rejected, Route::V2Https),
        Some(SendEnding::UploadRejected)
    );
    assert_eq!(
        upload_ending(UploadResult::Failed, Route::V2Http),
        Some(SendEnding::UploadNetworkError)
    );
    assert_eq!(
        upload_ending(UploadResult::Rejected, Route::V3Http),
        Some(SendEnding::UploadError)
    );
    assert_eq!(next_upload(true, 0), Some(SendEnding::Completed));
    assert_eq!(next_upload(true, 2), Some(SendEnding::Cancelled));
    assert_eq!(next_upload(false, 2), None);
}

#[test]
fn names_and_history_of_a_send() {
    assert_eq!(target_device_name(None, "10.0.0.2", 53317), "10.0.0.2:53317");
    assert_eq!(target_device_name(Some("Pad".to_string()), "10.0.0.2", 1), "Pad");
    let files = vec![text_item("  "), text_item("hello"), file_item("p.png", 5)];
    let entries = sent_history_entries(&files, "Pad", 77);
    assert_eq!(entries.len(), 3);
    assert_eq!(entries[0].file_name, "note");
    assert_eq!(entries[0].kind, HistoryEntryKind::Text);
    assert_eq!(entries[0].text_content.as_deref(), Some("note"));
    assert_eq!(entries[0].file_path, "");
    assert_eq!(entries[1].file_name, "hello");
    assert_eq!(entries[2].kind, HistoryEntryKind::File);
    assert_eq!(entries[2].file_path, "/data/p.png");
    assert_eq!(entries[2].file_uri.as_deref(), Some("file:///data/p.png"));
    assert_eq!(entries[2].text_content, None);
    assert_eq!(entries[2].direction, TransferDirection::Send);
    assert_eq!(entries[2].status, TransferStatus::Completed);
    assert_eq!(entries[2].device_name, "Pad");
    assert_eq!(entries[2].timestamp, 77);
    assert_eq!(entries[0].id.len(), 36);
    assert_ne!(entries[0].id, entries[1].id);
    assert!(clears_selection_after_send(SendMode::Single));
    assert!(!clears_selection_after_send(SendMode::Link));
}
