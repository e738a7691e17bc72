use nearsend::send::{
    apply_cancel, apply_status_update, begin_send, retry_target, session_is_finished,
    validate_before_send, SendSessionState, SendSessionStatus,
};

fn idle() -> SendSessionState {
    SendSessionState {
        pending_send: false,
        session_status: SendSessionStatus::Idle,
        session_status_text: None,
        has_cancel_flag: false,
        has_active_context: false,
        active_transfer_id: None,
        last_send_ip: None,
        last_send_port: None,
    }
}

#[test]
fn validation_refuses_in_order() {
    assert_eq!(
        validate_before_send(true, "", 0, 0),
        Err("正在发送中，请稍后再试。".to_string())
    );
    assert_eq!(
        validate_before_send(false, "10.0.0.2", 53317, 0),
        Err("请先选择要发送的内容。".to_string())
    );
    assert_eq!(
        validate_before_send(false, "   ", 53317, 1),
        Err("目标地址不能为空。".to_string())
    );
    assert_eq!(
        validate_before_send(false, "10.0.0.2", 0, 1),
        Err("目标端口无效。".to_string())
    );
    assert_eq!(validate_before_send(false, "10.0.0.2", 53317, 2), Ok(()));
}

#[test]
fn starting_a_send_remembers_the_target() {
    let mut s = idle();
    begin_send(&mut s, "192.168.1.9", 53317, Some("t1".to_string()));
    assert!(s.pending_send);
    assert_eq!(s.session_status, SendSessionStatus::Preparing);
    assert_eq!(s.session_status_text.as_deref(), Some("正在准备发送..."));
    assert_eq!(s.last_send_ip.as_deref(), Some("192.168.1.9"));
    assert_eq!(s.last_send_port, Some(53317));
    assert!(s.has_cancel_flag && s.has_active_context);
    assert_eq!(s.active_transfer_id.as_deref(), Some("t1"));
}

#[test]
fn finished_reports_release_the_handles() {
    let mut s = idle();
    begin_send(&mut s, "10.0.0.2", 53317, Some("t".to_string()));
    apply_status_update(&mut s, SendSessionStatus::Sending, Some("正在发送...".to_string()));
    assert!(s.pending_send);
    assert!(s.has_cancel_flag);
    apply_status_update(&mut s, SendSessionStatus::Completed, Some("发送完成".to_string()));
    assert!(!s.pending_send);
    assert!(!s.has_cancel_flag && !s.has_active_context);
    assert_eq!(s.active_transfer_id, None);
    assert_eq!(s.session_status_text.as_deref(), Some("发送完成"));
}

#[test]
fn idle_report_keeps_the_handles() {
    let mut s = idle();
    begin_send(&mut s, "10.0.0.2", 53317, None);
    apply_status_update(&mut s, SendSessionStatus::Idle, None);
    assert!(!s.pending_send);
    assert!(s.has_cancel_flag);
}

#[test]
fn cancellation_is_sticky() {
    let mut s = idle();
    begin_send(&mut s, "10.0.0.2", 53317, None);
    apply_cancel(&mut s);
    assert_eq!(s.session_status, SendSessionStatus::CancelledByUser);
    assert_eq!(s.session_status_text.as_deref(), Some("已取消发送"));
    assert!(!s.pending_send);
    apply_status_update(&mut s, SendSessionStatus::Completed, Some("发送完成".to_string()));
    assert_eq!(s.session_status, SendSessionStatus::CancelledByUser);
    assert_eq!(s.session_status_text.as_deref(), Some("已取消发送"));
    apply_status_update(
        &mut s,
        SendSessionStatus::CancelledByUser,
        Some("已取消输入 PIN".to_string()),
    );
    assert_eq!(s.session_status_text.as_deref(), Some("已取消输入 PIN"));
}

#[test]
fn finished_statuses() {
    assert!(session_is_finished(SendSessionStatus::Failed));
    assert!(session_is_finished(SendSessionStatus::TooManyAttempts));
    assert!(!session_is_finished(SendSessionStatus::Idle));
    assert!(!session_is_finished(SendSessionStatus::PinRequired));
}

#[test]
fn retry_needs_a_finished_send_with_a_target() {
    let mut s = idle();
    assert_eq!(retry_target(&s, true), Err("没有可重试的发送目标。".to_string()));
    s.last_send_ip = Some("10.0.0.2".to_string());
    assert_eq!(retry_target(&s, true), Err("没有可重试的发送目标端口。".to_string()));
    s.last_send_port = Some(53317);
    assert_eq!(
        retry_target(&s, false),
        Err("没有可重试的发送内容，请重新选择。".to_string())
    );
    assert_eq!(retry_target(&s, true), Ok(("10.0.0.2".to_string(), 53317)));
    s.pending_send = true;
    assert_eq!(
        retry_target(&s, true),
        Err("当前发送未结束，暂时不能重试。".to_string())
    );
}
