//! The send session: its status, the checks before a send starts, and how
//! status reports from the transfer task update what the page shows.

use vstd::prelude::*;
use crate::text::{is_blank, is_blank_str};

verus! {

/// Where a send session stands.
#[derive(Clone, Copy, Debug, PartialEq, Eq, Structural)]
pub enum SendSessionStatus {
    Idle,
    Preparing,
    PinRequired,
    Sending,
    Completed,
    Declined,
    RecipientBusy,
    TooManyAttempts,
    CancelledByUser,
    Failed,
}

/// The statuses that end a session.
pub open spec fn is_finished(s: SendSessionStatus) -> bool {
    match s {
        SendSessionStatus::Completed
        | SendSessionStatus::Declined
        | SendSessionStatus::RecipientBusy
        | SendSessionStatus::TooManyAttempts
        | SendSessionStatus::CancelledByUser
        | SendSessionStatus::Failed => true,
        _ => false,
    }
}

/// The statuses during which a send is still under way.
pub open spec fn is_in_flight(s: SendSessionStatus) -> bool {
    !is_finished(s) && s != SendSessionStatus::Idle
}

pub fn session_is_finished(s: SendSessionStatus) -> (b: bool)
    ensures
        b == is_finished(s),
{
    match s {
        SendSessionStatus::Completed
        | SendSessionStatus::Declined
        | SendSessionStatus::RecipientBusy
        | SendSessionStatus::TooManyAttempts
        | SendSessionStatus::CancelledByUser
        | SendSessionStatus::Failed => true,
        _ => false,
    }
}

/// What the send page keeps of the current session. The cancel flag and the
/// shared target record of a running transfer live beside it; `has_cancel_flag`
/// and `has_active_context` say whether they are held.
#[derive(Clone, Debug)]
pub struct SendSessionState {
    pub pending_send: bool,
    pub session_status: SendSessionStatus,
    pub session_status_text: Option<String>,
    pub has_cancel_flag: bool,
    pub has_active_context: bool,
    pub active_transfer_id: Option<String>,
    pub last_send_ip: Option<String>,
    pub last_send_port: Option<u16>,
}

pub open spec fn text_view(t: Option<String>) -> Option<Seq<char>> {
    match t {
        Some(s) => Some(s@),
        None => None,
    }
}

/// The state after a status report is applied: a cancelled session ignores
/// every later report but another cancel; otherwise the report is shown,
/// `pending_send` follows it, and a finished session lets go of its handles.
pub open spec fn status_applied(
    before: SendSessionState,
    after: SendSessionState,
    status: SendSessionStatus,
    message: Option<Seq<char>>,
) -> bool {
    if before.session_status == SendSessionStatus::CancelledByUser
        && status != SendSessionStatus::CancelledByUser {
        after == before
    } else {
        &&& after.session_status == status
        &&& text_view(after.session_status_text) == message
        &&& after.pending_send == is_in_flight(status)
        &&& after.has_cancel_flag == (before.has_cancel_flag && !is_finished(status))
        &&& after.has_active_context == (before.has_active_context && !is_finished(status))
        &&& after.active_transfer_id == (if is_finished(status) {
            None
        } else {
            before.active_transfer_id
        })
        &&& after.last_send_ip == before.last_send_ip
        &&& after.last_send_port == before.last_send_port
    }
}

/// Applies a status report from the transfer task.
pub fn apply_status_update(
    state: &mut SendSessionState,
    status: SendSessionStatus,
    message: Option<String>,
)
    ensures
        status_applied(*old(state), *final(state), status, text_view(message)),
{
    if state.session_status == SendSessionStatus::CancelledByUser
        && status != SendSessionStatus::CancelledByUser {
        return;
    }
    state.session_status = status;
    state.session_status_text = message;
    let finished = session_is_finished(status);
    state.pending_send = !finished && status != SendSessionStatus::Idle;
    if finished {
        state.has_cancel_flag = false;
        state.has_active_context = false;
        state.active_transfer_id = None;
    }
}

/// A report that a send completed, was declined, found the recipient busy,
/// hit too many attempts, was cancelled or failed ends the session: the page
/// shows it, is no longer sending, and lets go of the cancel flag, target
/// record and transfer id (unless an earlier cancel already ended it).
pub proof fn lemma_finished_reports_free_the_session(
    before: SendSessionState,
    after: SendSessionState,
    status: SendSessionStatus,
    message: Option<Seq<char>>,
)
    requires
        status == SendSessionStatus::Completed || status == SendSessionStatus::Declined || status
            == SendSessionStatus::RecipientBusy || status == SendSessionStatus::TooManyAttempts || status
            == SendSessionStatus::CancelledByUser || status == SendSessionStatus::Failed,
        before.session_status != SendSessionStatus::CancelledByUser || status
            == SendSessionStatus::CancelledByUser,
        status_applied(before, after, status, message),
    ensures
        after.session_status == status,
        !after.pending_send,
        !after.has_cancel_flag,
        !after.has_active_context,
        after.active_transfer_id is None,
        after.last_send_ip == before.last_send_ip,
        after.last_send_port == before.last_send_port,
{
}

/// A report that a send is preparing, waits for a PIN or is sending keeps the
/// page sending and keeps its handles; an idle report leaves it not sending,
/// handles kept.
pub proof fn lemma_running_reports_keep_the_session(
    before: SendSessionState,
    after: SendSessionState,
    status: SendSessionStatus,
    message: Option<Seq<char>>,
)
    requires
        status == SendSessionStatus::Preparing || status == SendSessionStatus::PinRequired || status
            == SendSessionStatus::Sending || status == SendSessionStatus::Idle,
        before.session_status != SendSessionStatus::CancelledByUser,
        status_applied(before, after, status, message),
    ensures
        after.session_status == status,
        after.pending_send == (status != SendSessionStatus::Idle),
        after.has_cancel_flag == before.has_cancel_flag,
        after.has_active_context == before.has_active_context,
        after.active_transfer_id == before.active_transfer_id,
{
}

/// Once the user has cancelled, no later report but another cancel changes
/// what the page shows.
pub proof fn lemma_cancel_is_sticky(
    before: SendSessionState,
    after: SendSessionState,
    status: SendSessionStatus,
    message: Option<Seq<char>>,
)
    requires
        before.session_status == SendSessionStatus::CancelledByUser,
        status != SendSessionStatus::CancelledByUser,
        status_applied(before, after, status, message),
    ensures
        after == before,
{
}

/// After any report the page is busy exactly when the shown status is still
/// under way, and a finished session holds no cancel flag, target record or
/// transfer id.
pub proof fn lemma_report_keeps_state_consistent(
    before: SendSessionState,
    after: SendSessionState,
    status: SendSessionStatus,
    message: Option<Seq<char>>,
)
    requires
        before.pending_send == is_in_flight(before.session_status),
        is_finished(before.session_status) ==> !before.has_cancel_flag && !before.has_active_context
            && before.active_transfer_id is None,
        status_applied(before, after, status, message),
    ensures
        after.pending_send == is_in_flight(after.session_status),
        is_finished(after.session_status) ==> !after.has_cancel_flag && !after.has_active_context
            && after.active_transfer_id is None,
{
}

/// Why a send cannot start.
pub open spec fn send_refusal(
    pending: bool,
    ip: Seq<char>,
    port: u16,
    file_count: nat,
) -> Option<Seq<char>> {
    if pending {
        Some("正在发送中，请稍后再试。"@)
    } else if file_count == 0 {
        Some("请先选择要发送的内容。"@)
    } else if is_blank(ip) {
        Some("目标地址不能为空。"@)
    } else if port == 0 {
        Some("目标端口无效。"@)
    } else {
        None
    }
}

/// Checks a send before it starts: nothing may be under way, something must be
/// selected, and the target needs an address and a non-zero port.
pub fn validate_before_send(pending: bool, ip: &str, port: u16, file_count: usize) -> (r: Result<
    (),
    String,
>)
    ensures
        match r {
            Ok(()) => send_refusal(pending, ip@, port, file_count as nat) is None,
            Err(m) => send_refusal(pending, ip@, port, file_count as nat) == Some(m@),
        },
{
    if pending {
        return Err("正在发送中，请稍后再试。".to_owned());
    }
    if file_count == 0 {
        return Err("请先选择要发送的内容。".to_owned());
    }
    if is_blank_str(ip) {
        return Err("目标地址不能为空。".to_owned());
    }
    if port == 0 {
        return Err("目标端口无效。".to_owned());
    }
    Ok(())
}

/// The state once a validated send has started: the target is remembered,
/// fresh handles are held, and the session is preparing.
pub open spec fn send_started(
    before: SendSessionState,
    after: SendSessionState,
    ip: Seq<char>,
    port: u16,
    transfer_id: Option<String>,
) -> bool {
    &&& after.pending_send
    &&& after.session_status == SendSessionStatus::Preparing
    &&& text_view(after.session_status_text) == Some("正在准备发送..."@)
    &&& after.has_cancel_flag
    &&& after.has_active_context
    &&& after.active_transfer_id == transfer_id
    &&& text_view(after.last_send_ip) == Some(ip)
    &&& after.last_send_port == Some(port)
}

/// Starts a send that passed `validate_before_send`.
pub fn begin_send(
    state: &mut SendSessionState,
    ip: &str,
    port: u16,
    transfer_id: Option<String>,
)
    ensures
        send_started(*old(state), *final(state), ip@, port, transfer_id),
{
    state.last_send_ip = Some(ip.to_owned());
    state.last_send_port = Some(port);
    state.has_cancel_flag = true;
    state.has_active_context = true;
    state.active_transfer_id = transfer_id;
    state.pending_send = true;
    state.session_status = SendSessionStatus::Preparing;
    state.session_status_text = Some("正在准备发送...".to_owned());
}

/// While a send is under way, a second one is refused.
pub proof fn lemma_no_second_send_while_pending(
    state: SendSessionState,
    ip: Seq<char>,
    port: u16,
    file_count: nat,
)
    requires
        state.pending_send,
    ensures
        send_refusal(state.pending_send, ip, port, file_count) == Some(
            "正在发送中，请稍后再试。"@,
        ),
{
}

/// The state after the user cancels: the page stops waiting, shows the
/// cancellation, and lets go of the handles of the transfer.
pub open spec fn send_cancelled(before: SendSessionState, after: SendSessionState) -> bool {
    &&& !after.pending_send
    &&& after.session_status == SendSessionStatus::CancelledByUser
    &&& text_view(after.session_status_text) == Some("已取消发送"@)
    &&& !after.has_cancel_flag
    &&& !after.has_active_context
    &&& after.active_transfer_id is None
    &&& after.last_send_ip == before.last_send_ip
    &&& after.last_send_port == before.last_send_port
}

/// Applies a cancel request of the user.
pub fn apply_cancel(state: &mut SendSessionState)
    ensures
        send_cancelled(*old(state), *final(state)),
{
    state.pending_send = false;
    state.session_status = SendSessionStatus::CancelledByUser;
    state.session_status_text = Some("已取消发送".to_owned());
    state.has_cancel_flag = false;
    state.has_active_context = false;
    state.active_transfer_id = None;
}

/// A cancelled session stays cancelled whatever the transfer task reports
/// afterwards, unless it reports the cancellation itself.
pub proof fn lemma_cancel_then_report(
    s0: SendSessionState,
    s1: SendSessionState,
    s2: SendSessionState,
    status: SendSessionStatus,
    message: Option<Seq<char>>,
)
    requires
        send_cancelled(s0, s1),
        status_applied(s1, s2, status, message),
        status != SendSessionStatus::CancelledByUser,
    ensures
        s2 == s1,
        !s2.pending_send,
{
}

/// Why the last send cannot be retried, if it cannot.
pub open spec fn retry_refusal(state: SendSessionState, has_selection: bool) -> Option<Seq<char>> {
    if state.pending_send {
        Some("当前发送未结束，暂时不能重试。"@)
    } else if state.last_send_ip is None {
        Some("没有可重试的发送目标。"@)
    } else if state.last_send_port is None {
        Some("没有可重试的发送目标端口。"@)
    } else if !has_selection {
        Some("没有可重试的发送内容，请重新选择。"@)
    } else {
        None
    }
}

/// Decides a retry of the last send: the target it went to, or why there is
/// nothing to retry.
pub fn retry_target(state: &SendSessionState, has_selection: bool) -> (r: Result<(String, u16), String>)
    ensures
        match r {
            Ok((ip, port)) => retry_refusal(*state, has_selection) is None && state.last_send_ip
                == Some(ip) && state.last_send_port == Some(port),
            Err(m) => retry_refusal(*state, has_selection) == Some(m@),
        },
{
    if state.pending_send {
        return Err("当前发送未结束，暂时不能重试。".to_owned());
    }
    let ip = match &state.last_send_ip {
        Some(ip) => ip.clone(),
        None => {
            return Err("没有可重试的发送目标。".to_owned());
        },
    };
    let port = match state.last_send_port {
        Some(p) => p,
        None => {
            return Err("没有可重试的发送目标端口。".to_owned());
        },
    };
    if !has_selection {
        return Err("没有可重试的发送内容，请重新选择。".to_owned());
    }
    Ok((ip, port))
}

/// A retry goes to the target of the send that started last.
pub proof fn lemma_retry_goes_to_last_target(
    s0: SendSessionState,
    s1: SendSessionState,
    ip: Seq<char>,
    port: u16,
    transfer_id: Option<String>,
    s2: SendSessionState,
    status: SendSessionStatus,
    message: Option<Seq<char>>,
)
    requires
        send_started(s0, s1, ip, port, transfer_id),
        status_applied(s1, s2, status, message),
    ensures
        text_view(s2.last_send_ip) == Some(ip),
        s2.last_send_port == Some(port),
{
}

} // verus!
