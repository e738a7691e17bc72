//! The incoming-transfer page: what it shows of the running session — the
//! sender, the headline and caption, each item's line, and which actions are
//! offered.

use vstd::prelude::*;
use crate::fmt::{decimal, file_size_text, format_file_size};
use crate::history::TransferDirection;
use crate::receive::visual_tag_text;
use crate::text::{starts_with, str_starts_with};

verus! {

/// One item of an incoming session.
#[derive(Clone, Debug)]
pub struct InboxItem {
    pub file_id: String,
    pub file_name: String,
    pub size: u64,
    pub file_type: String,
    pub bytes_received: u64,
    pub speed_bytes_per_sec: u64,
    pub saved_path: Option<String>,
    pub saved_uri: Option<String>,
    pub text_content: Option<String>,
}

/// The session the incoming page shows.
#[derive(Clone, Debug)]
pub struct InboxSession {
    pub session_id: String,
    pub sender_alias: String,
    pub sender_device_model: Option<String>,
    pub sender_fingerprint: String,
    pub items: Vec<InboxItem>,
    pub selected_file_ids: Vec<String>,
    pub is_message_only: bool,
    pub cancelled: bool,
    pub completed: bool,
    pub decision_submitted: bool,
    pub direction: TransferDirection,
}

/// The sender's name: its alias, or `NearSend` when it gave none.
pub open spec fn sender_alias_text(s: Option<InboxSession>) -> Seq<char> {
    match s {
        Some(s) => if s.sender_alias@.len() != 0 {
            s.sender_alias@
        } else {
            "NearSend"@
        },
        None => "NearSend"@,
    }
}

pub fn sender_alias(s: Option<&InboxSession>) -> (r: String)
    ensures
        r@ == sender_alias_text(match s {
            Some(x) => Some(*x),
            None => None,
        }),
{
    match s {
        Some(x) => if crate::text::chars_of(x.sender_alias.as_str()).len() != 0 {
            x.sender_alias.clone()
        } else {
            "NearSend".to_owned()
        },
        None => "NearSend".to_owned(),
    }
}

/// The sender's device model, or `OpenHarmony` when it gave none.
pub open spec fn sender_model_text(s: Option<InboxSession>) -> Seq<char> {
    match s {
        Some(s) => match s.sender_device_model {
            Some(m) => m@,
            None => "OpenHarmony"@,
        },
        None => "OpenHarmony"@,
    }
}

pub fn sender_model(s: Option<&InboxSession>) -> (r: String)
    ensures
        r@ == sender_model_text(match s {
            Some(x) => Some(*x),
            None => None,
        }),
{
    match s {
        Some(x) => match &x.sender_device_model {
            Some(m) => m.clone(),
            None => "OpenHarmony".to_owned(),
        },
        None => "OpenHarmony".to_owned(),
    }
}

/// The sender's tag: `#` and its two-digit visual tag, `#--` with no session.
pub open spec fn sender_tag_text(s: Option<InboxSession>) -> Seq<char> {
    match s {
        Some(s) => "#"@ + visual_tag_text(s.sender_fingerprint@),
        None => "#--"@,
    }
}

pub fn sender_tag(s: Option<&InboxSession>) -> (r: String)
    ensures
        r@ == sender_tag_text(match s {
            Some(x) => Some(*x),
            None => None,
        }),
{
    match s {
        Some(x) => {
            let tag = crate::receive::visual_tag(x.sender_fingerprint.as_str());
            crate::text::concat_str("#", tag.as_str())
        },
        None => "#--".to_owned(),
    }
}

/// The text of a message session: the text of its first item.
pub open spec fn message_of(s: InboxSession) -> Option<String> {
    if s.is_message_only && s.items@.len() > 0 {
        s.items@[0].text_content
    } else {
        None
    }
}

pub fn message_content(s: &InboxSession) -> (r: Option<String>)
    ensures
        r == message_of(*s),
{
    if s.is_message_only && s.items.len() > 0 {
        match &s.items[0].text_content {
            Some(t) => Some(t.clone()),
            None => None,
        }
    } else {
        None
    }
}

pub open spec fn size_sum(items: Seq<InboxItem>) -> nat
    decreases items.len(),
{
    if items.len() == 0 {
        0
    } else {
        size_sum(items.drop_last()) + items.last().size as nat
    }
}

pub open spec fn received_sum(items: Seq<InboxItem>) -> nat
    decreases items.len(),
{
    if items.len() == 0 {
        0
    } else {
        received_sum(items.drop_last()) + items.last().bytes_received as nat
    }
}

/// Whether an item is among the selected ones.
pub open spec fn is_selected(ids: Seq<String>, id: Seq<char>) -> bool {
    exists|i: int| 0 <= i < ids.len() && (#[trigger] ids[i])@ == id
}

pub open spec fn selected_sum(items: Seq<InboxItem>, ids: Seq<String>) -> nat
    decreases items.len(),
{
    if items.len() == 0 {
        0
    } else {
        selected_sum(items.drop_last(), ids) + (if is_selected(ids, items.last().file_id@) {
            items.last().size as nat
        } else {
            0
        })
    }
}

/// The number of different identifiers among the selected ones.
pub open spec fn distinct_count(ids: Seq<String>) -> nat
    decreases ids.len(),
{
    if ids.len() == 0 {
        0
    } else {
        distinct_count(ids.drop_last()) + (if is_selected(ids.drop_last(), ids.last()@) {
            0nat
        } else {
            1nat
        })
    }
}

pub open spec fn is_moving(item: InboxItem) -> bool {
    0 < item.bytes_received && item.bytes_received < item.size
}

/// The highest speed among the items being received, 0 when none is.
pub open spec fn active_speed(items: Seq<InboxItem>) -> nat
    decreases items.len(),
{
    if items.len() == 0 {
        0
    } else {
        let rest = active_speed(items.drop_last());
        let last = items.last();
        if is_moving(last) && last.speed_bytes_per_sec as nat > rest {
            last.speed_bytes_per_sec as nat
        } else {
            rest
        }
    }
}

/// The speed the page shows is the highest speed among the items still being
/// received (some but not all of their bytes arrived), and 0 when none is:
/// an item that received all its bytes, or none yet, never sets it.
pub proof fn lemma_active_speed_is_highest_moving(items: Seq<InboxItem>)
    ensures
        forall|i: int|
            0 <= i < items.len() && 0 < (#[trigger] items[i]).bytes_received && items[i].bytes_received
                < items[i].size ==> items[i].speed_bytes_per_sec <= active_speed(items),
        active_speed(items) == 0 || exists|i: int|
            0 <= i < items.len() && 0 < (#[trigger] items[i]).bytes_received && items[i].bytes_received
                < items[i].size && items[i].speed_bytes_per_sec == active_speed(items),
    decreases items.len(),
{
    if items.len() > 0 {
        let init = items.drop_last();
        lemma_active_speed_is_highest_moving(init);
        assert forall|i: int|
            0 <= i < items.len() && 0 < (#[trigger] items[i]).bytes_received && items[i].bytes_received
                < items[i].size implies items[i].speed_bytes_per_sec <= active_speed(items) by {
            if i < init.len() {
                assert(init[i] == items[i]);
            }
        }
        if active_speed(items) != 0 {
            if active_speed(items) == active_speed(init) {
                let j = choose|j: int|
                    0 <= j < init.len() && 0 < (#[trigger] init[j]).bytes_received && init[j].bytes_received
                        < init[j].size && init[j].speed_bytes_per_sec == active_speed(init);
                assert(items[j] == init[j]);
            } else {
                assert(items[items.len() - 1] == items.last());
            }
        }
    }
}

/// The figures of a session the page is built from.
#[derive(Clone, Copy, Debug, PartialEq, Eq, Structural)]
pub struct InboxTotals {
    pub total_size: u64,
    pub received_size: u64,
    pub selected_size: u64,
    pub selected_count: u64,
    pub active_speed: u64,
}

pub open spec fn totals_of(s: InboxSession, t: InboxTotals) -> bool {
    &&& t.total_size == size_sum(s.items@)
    &&& t.received_size == received_sum(s.items@)
    &&& t.selected_size == selected_sum(s.items@, s.selected_file_ids@)
    &&& t.selected_count == distinct_count(s.selected_file_ids@)
    &&& t.active_speed == active_speed(s.items@)
}

fn ids_contain(ids: &Vec<String>, upto: usize, id: &str) -> (b: bool)
    requires
        upto <= ids@.len(),
    ensures
        b == is_selected(ids@.subrange(0, upto as int), id@),
{
    let target = crate::text::chars_of(id);
    let mut i: usize = 0;
    while i < upto
        invariant
            0 <= i <= upto <= ids@.len(),
            target@ == id@,
            forall|j: int| 0 <= j < i ==> (#[trigger] ids@[j])@ != id@,
        decreases upto - i,
    {
        let candidate = crate::text::chars_of(ids[i].as_str());
        if crate::text::chars_eq(candidate.as_slice(), target.as_slice()) {
            assert(ids@.subrange(0, upto as int)[i as int] == ids@[i as int]);
            return true;
        }
        i = i + 1;
    }
    assert forall|j: int| 0 <= j < upto implies (#[trigger] ids@.subrange(0, upto as int)[j])@
        != id@ by {
        assert(ids@.subrange(0, upto as int)[j] == ids@[j]);
    }
    false
}

/// The sizes of a session; the sums must fit in 64 bits.
pub fn inbox_totals(s: &InboxSession) -> (t: InboxTotals)
    requires
        size_sum(s.items@) <= u64::MAX,
        received_sum(s.items@) <= u64::MAX,
    ensures
        totals_of(*s, t),
{
    let items = &s.items;
    let ids = &s.selected_file_ids;
    let mut total: u64 = 0;
    let mut received: u64 = 0;
    let mut selected: u64 = 0;
    let mut speed: u64 = 0;
    let mut i: usize = 0;
    while i < items.len()
        invariant
            0 <= i <= items@.len(),
            size_sum(items@) <= u64::MAX,
            received_sum(items@) <= u64::MAX,
            total == size_sum(items@.subrange(0, i as int)),
            received == received_sum(items@.subrange(0, i as int)),
            selected == selected_sum(items@.subrange(0, i as int), ids@),
            selected <= total,
            speed == active_speed(items@.subrange(0, i as int)),
        decreases items@.len() - i,
    {
        let item = &items[i];
        proof {
            let pre = items@.subrange(0, i as int);
            let next = items@.subrange(0, i + 1);
            assert(next.drop_last() == pre);
            assert(next.last() == *item);
            lemma_sums_prefix(items@, i + 1);
        }
        total = total + item.size;
        received = received + item.bytes_received;
        if ids_contain(ids, ids.len(), item.file_id.as_str()) {
            assert(ids@.subrange(0, ids@.len() as int) == ids@);
            selected = selected + item.size;
        } else {
            assert(ids@.subrange(0, ids@.len() as int) == ids@);
        }
        if item.bytes_received > 0 && item.bytes_received < item.size && item.speed_bytes_per_sec
            > speed {
            speed = item.speed_bytes_per_sec;
        }
        i = i + 1;
    }
    assert(items@.subrange(0, items@.len() as int) == items@);
    let mut count: u64 = 0;
    let mut k: usize = 0;
    while k < ids.len()
        invariant
            0 <= k <= ids@.len(),
            count == distinct_count(ids@.subrange(0, k as int)),
            count <= k,
        decreases ids@.len() - k,
    {
        proof {
            let next = ids@.subrange(0, k + 1);
            assert(next.drop_last() == ids@.subrange(0, k as int));
            assert(next.last() == ids@[k as int]);
        }
        if !ids_contain(ids, k, ids[k].as_str()) {
            count = count + 1;
        }
        k = k + 1;
    }
    assert(ids@.subrange(0, ids@.len() as int) == ids@);
    InboxTotals {
        total_size: total,
        received_size: received,
        selected_size: selected,
        selected_count: count,
        active_speed: speed,
    }
}

/// Sums over a prefix never exceed the sums over the whole.
pub proof fn lemma_sums_prefix(items: Seq<InboxItem>, k: int)
    requires
        0 <= k <= items.len(),
    ensures
        size_sum(items.subrange(0, k)) <= size_sum(items),
        received_sum(items.subrange(0, k)) <= received_sum(items),
    decreases items.len() - k,
{
    if k < items.len() {
        lemma_sums_prefix(items, k + 1);
        assert(items.subrange(0, k + 1).drop_last() == items.subrange(0, k));
    } else {
        assert(items.subrange(0, k) == items);
    }
}


fn push_text(out: &mut Vec<char>, s: &str)
    ensures
        final(out)@ == old(out)@ + s@,
{
    let v = crate::text::chars_of(s);
    crate::text::extend_chars(out, v.as_slice());
}

fn push_size(out: &mut Vec<char>, n: u64)
    ensures
        final(out)@ == old(out)@ + file_size_text(n as nat),
{
    let t = format_file_size(n);
    push_text(out, t.as_str());
}

/// Whether bytes are arriving: the session runs, holds no message, and has
/// received some but not all of its bytes.
pub open spec fn receiving(s: InboxSession, t: InboxTotals) -> bool {
    &&& !s.completed
    &&& !s.cancelled
    &&& message_of(s) is None
    &&& t.received_size > 0
    &&& t.received_size < (if t.total_size > 1 {
        t.total_size
    } else {
        1
    })
}

/// Whether the user accepted and the sender has not started yet.
pub open spec fn waiting_for_sender(s: InboxSession) -> bool {
    s.decision_submitted && !s.completed && message_of(s) is None
}

/// The headline of the page.
pub open spec fn status_title_text(s: Option<InboxSession>, t: InboxTotals) -> Seq<char> {
    match s {
        None => "等待接收内容"@,
        Some(s) => if s.cancelled {
            "传输已取消"@
        } else if receiving(s, t) {
            "正在接收"@
        } else if waiting_for_sender(s) {
            "等待对方发送"@
        } else if s.completed {
            if s.direction == TransferDirection::Send {
                "发送完成"@
            } else {
                "接收完成"@
            }
        } else if message_of(s) is Some {
            "收到一条消息"@
        } else if s.items@.len() > 0 {
            "准备接收文件"@
        } else {
            "等待接收内容"@
        },
    }
}

pub fn status_title(s: Option<&InboxSession>, t: InboxTotals) -> (r: &'static str)
    ensures
        r@ == status_title_text(
            match s {
                Some(x) => Some(*x),
                None => None,
            },
            t,
        ),
{
    match s {
        None => "等待接收内容",
        Some(s) => {
            let has_message = s.is_message_only && s.items.len() > 0
                && s.items[0].text_content.is_some();
            let top = if t.total_size > 1 {
                t.total_size
            } else {
                1
            };
            if s.cancelled {
                "传输已取消"
            } else if !s.completed && !has_message && t.received_size > 0 && t.received_size
                < top {
                "正在接收"
            } else if s.decision_submitted && !s.completed && !has_message {
                "等待对方发送"
            } else if s.completed {
                if matches!(s.direction, TransferDirection::Send) {
                    "发送完成"
                } else {
                    "接收完成"
                }
            } else if has_message {
                "收到一条消息"
            } else if s.items.len() > 0 {
                "准备接收文件"
            } else {
                "等待接收内容"
            }
        },
    }
}

/// The caption under the headline; `percent` is the rounded share of the
/// bytes received, as text.
pub open spec fn status_caption_text(
    s: Option<InboxSession>,
    t: InboxTotals,
    percent: Seq<char>,
) -> Seq<char> {
    match s {
        None => "保持此页面打开以继续接收"@,
        Some(s) => {
            let n = s.items@.len();
            if s.cancelled {
                "对方已取消本次传输"@
            } else if receiving(s, t) {
                file_size_text(t.received_size as nat) + " / "@ + file_size_text(t.total_size as nat)
                    + " · "@ + percent + "%"@ + (if t.active_speed > 0 {
                    " · "@ + file_size_text(t.active_speed as nat) + "/s"@
                } else {
                    Seq::<char>::empty()
                })
            } else if waiting_for_sender(s) {
                "已接受 "@ + decimal(t.selected_count as nat) + " 个文件，正在建立传输"@
            } else if s.completed {
                if n > 0 {
                    "已处理 "@ + decimal(n) + " 个文件 · "@ + file_size_text(t.total_size as nat)
                } else {
                    "内容已处理完成"@
                }
            } else if message_of(s) is Some {
                "来自 "@ + sender_alias_text(Some(s))
            } else if n > 0 {
                (if t.selected_count == n {
                    "全部已选"@
                } else {
                    "已选 "@ + decimal(t.selected_count as nat) + "/"@ + decimal(n)
                }) + " · "@ + file_size_text(t.selected_size as nat)
            } else {
                "保持此页面打开以继续接收"@
            }
        },
    }
}

pub fn status_caption(s: Option<&InboxSession>, t: InboxTotals, percent: &str) -> (r: String)
    ensures
        r@ == status_caption_text(
            match s {
                Some(x) => Some(*x),
                None => None,
            },
            t,
            percent@,
        ),
{
    let s = match s {
        None => {
            return "保持此页面打开以继续接收".to_owned();
        },
        Some(x) => x,
    };
    let n = s.items.len();
    let has_message = s.is_message_only && s.items.len() > 0 && s.items[0].text_content.is_some();
    let top = if t.total_size > 1 {
        t.total_size
    } else {
        1
    };
    let mut out: Vec<char> = Vec::new();
    if s.cancelled {
        return "对方已取消本次传输".to_owned();
    } else if !s.completed && !has_message && t.received_size > 0 && t.received_size < top {
        push_size(&mut out, t.received_size);
        push_text(&mut out, " / ");
        push_size(&mut out, t.total_size);
        push_text(&mut out, " · ");
        push_text(&mut out, percent);
        push_text(&mut out, "%");
        if t.active_speed > 0 {
            push_text(&mut out, " · ");
            push_size(&mut out, t.active_speed);
            push_text(&mut out, "/s");
        }
    } else if s.decision_submitted && !s.completed && !has_message {
        push_text(&mut out, "已接受 ");
        crate::fmt::push_decimal(&mut out, t.selected_count);
        push_text(&mut out, " 个文件，正在建立传输");
    } else if s.completed {
        if n > 0 {
            push_text(&mut out, "已处理 ");
            crate::fmt::push_decimal(&mut out, n as u64);
            push_text(&mut out, " 个文件 · ");
            push_size(&mut out, t.total_size);
        } else {
            return "内容已处理完成".to_owned();
        }
    } else if has_message {
        push_text(&mut out, "来自 ");
        let alias = sender_alias(Some(s));
        push_text(&mut out, alias.as_str());
    } else if n > 0 {
        if t.selected_count == n as u64 {
            push_text(&mut out, "全部已选");
        } else {
            push_text(&mut out, "已选 ");
            crate::fmt::push_decimal(&mut out, t.selected_count);
            push_text(&mut out, "/");
            crate::fmt::push_decimal(&mut out, n as u64);
        }
        push_text(&mut out, " · ");
        push_size(&mut out, t.selected_size);
    } else {
        return "保持此页面打开以继续接收".to_owned();
    }
    crate::text::string_of(out.as_slice())
}


/// The line under the sender's name.
pub open spec fn subtitle_text(s: Option<InboxSession>) -> Seq<char> {
    match s {
        None => "等待接收内容"@,
        Some(s) => {
            let n = s.items@.len();
            let alias = sender_alias_text(Some(s));
            if message_of(s) is Some {
                if s.direction == TransferDirection::Send {
                    "你发送给 "@ + alias + " 的消息："@
                } else {
                    "发送给你了一条消息："@
                }
            } else if n > 0 {
                if s.direction == TransferDirection::Send {
                    "你发送给 "@ + alias + " "@ + decimal(n) + " 个文件"@
                } else {
                    "发送给你 "@ + decimal(n) + " 个文件"@
                }
            } else {
                "等待接收内容"@
            }
        },
    }
}

pub fn subtitle(s: Option<&InboxSession>) -> (r: String)
    ensures
        r@ == subtitle_text(
            match s {
                Some(x) => Some(*x),
                None => None,
            },
        ),
{
    let s = match s {
        None => {
            return "等待接收内容".to_owned();
        },
        Some(x) => x,
    };
    let n = s.items.len();
    let has_message = s.is_message_only && s.items.len() > 0 && s.items[0].text_content.is_some();
    let sending = matches!(s.direction, TransferDirection::Send);
    let alias = sender_alias(Some(s));
    let mut out: Vec<char> = Vec::new();
    if has_message {
        if sending {
            push_text(&mut out, "你发送给 ");
            push_text(&mut out, alias.as_str());
            push_text(&mut out, " 的消息：");
        } else {
            return "发送给你了一条消息：".to_owned();
        }
    } else if n > 0 {
        if sending {
            push_text(&mut out, "你发送给 ");
            push_text(&mut out, alias.as_str());
            push_text(&mut out, " ");
            crate::fmt::push_decimal(&mut out, n as u64);
            push_text(&mut out, " 个文件");
        } else {
            push_text(&mut out, "发送给你 ");
            crate::fmt::push_decimal(&mut out, n as u64);
            push_text(&mut out, " 个文件");
        }
    } else {
        return "等待接收内容".to_owned();
    }
    crate::text::string_of(out.as_slice())
}

/// Which buttons the page offers.
#[derive(Clone, Copy, Debug, PartialEq, Eq, Structural)]
pub enum IncomingActions {
    /// Decline or accept the request.
    Decide,
    /// Cancel the running transfer.
    CancelReceiving,
    /// Close the page (`完成` once the session completed, else `关闭`).
    Close,
}

pub open spec fn is_running(s: InboxSession) -> bool {
    !s.completed && !s.cancelled && !s.is_message_only
}

pub open spec fn spec_incoming_actions(s: Option<InboxSession>) -> IncomingActions {
    match s {
        Some(s) => if is_running(s) && !s.decision_submitted {
            IncomingActions::Decide
        } else if is_running(s) {
            IncomingActions::CancelReceiving
        } else {
            IncomingActions::Close
        },
        None => IncomingActions::Close,
    }
}

pub fn incoming_actions(s: Option<&InboxSession>) -> (a: IncomingActions)
    ensures
        a == spec_incoming_actions(
            match s {
                Some(x) => Some(*x),
                None => None,
            },
        ),
{
    match s {
        Some(s) => {
            let running = !s.completed && !s.cancelled && !s.is_message_only;
            if running && !s.decision_submitted {
                IncomingActions::Decide
            } else if running {
                IncomingActions::CancelReceiving
            } else {
                IncomingActions::Close
            }
        },
        None => IncomingActions::Close,
    }
}

/// The label of the close button.
pub fn close_label(completed: bool) -> (r: &'static str)
    ensures
        r@ == (if completed {
            "完成"@
        } else {
            "关闭"@
        }),
{
    if completed {
        "完成"
    } else {
        "关闭"
    }
}

/// Closing the page cancels a transfer that is still running.
pub fn close_cancels_transfer(s: Option<&InboxSession>) -> (b: bool)
    ensures
        b == match s {
            Some(x) => is_running(*x),
            None => false,
        },
{
    match s {
        Some(s) => !s.completed && !s.cancelled && !s.is_message_only,
        None => false,
    }
}

/// The offered buttons never both decide and cancel: a request is decided
/// once, and only a running transfer can be cancelled or is cancelled on close.
pub proof fn lemma_decide_before_cancel(s: InboxSession)
    ensures
        spec_incoming_actions(Some(s)) == IncomingActions::Decide ==> !s.decision_submitted
            && is_running(s),
        spec_incoming_actions(Some(s)) == IncomingActions::CancelReceiving ==> s.decision_submitted
            && is_running(s),
        spec_incoming_actions(Some(s)) == IncomingActions::Close ==> !is_running(s),
{
}

/// The emblem at the top of the page.
#[derive(Clone, Copy, Debug, PartialEq, Eq, Structural)]
pub enum StatusEmblem {
    Cancelled,
    Done,
    Upload,
    Download,
}

pub open spec fn spec_status_emblem(s: Option<InboxSession>) -> StatusEmblem {
    match s {
        Some(s) => if s.cancelled {
            StatusEmblem::Cancelled
        } else if s.completed {
            StatusEmblem::Done
        } else if s.direction == TransferDirection::Send {
            StatusEmblem::Upload
        } else {
            StatusEmblem::Download
        },
        None => StatusEmblem::Download,
    }
}

pub fn status_emblem(s: Option<&InboxSession>) -> (e: StatusEmblem)
    ensures
        e == spec_status_emblem(
            match s {
                Some(x) => Some(*x),
                None => None,
            },
        ),
{
    match s {
        Some(s) => if s.cancelled {
            StatusEmblem::Cancelled
        } else if s.completed {
            StatusEmblem::Done
        } else if matches!(s.direction, TransferDirection::Send) {
            StatusEmblem::Upload
        } else {
            StatusEmblem::Download
        },
        None => StatusEmblem::Download,
    }
}

/// The colour family of a row or of the emblem.
#[derive(Clone, Copy, Debug, PartialEq, Eq, Structural)]
pub enum Tone {
    Danger,
    Success,
    Primary,
    Muted,
}

/// What one item's row shows.
#[derive(Clone, Debug)]
pub struct ItemRow {
    pub tone: Tone,
    /// A check mark (else a cross) in the selection circle.
    pub active: bool,
    /// A progress bar under the row.
    pub receiving: bool,
    /// A text icon (else a file icon).
    pub is_text: bool,
    pub status: String,
}

pub open spec fn row_status_text(item: InboxItem, selected: bool, cancelled: bool, completed: bool) -> Seq<
    char,
> {
    if cancelled {
        "已取消"@
    } else if completed || item.saved_path is Some || item.saved_uri is Some {
        "已保存"@
    } else if !completed && is_moving(item) {
        file_size_text(item.bytes_received as nat) + " / "@ + file_size_text(item.size as nat) + (
        if item.speed_bytes_per_sec > 0 {
            " · "@ + file_size_text(item.speed_bytes_per_sec as nat) + "/s"@
        } else {
            Seq::<char>::empty()
        })
    } else if selected {
        file_size_text(item.size as nat)
    } else {
        "未选择"@
    }
}

pub open spec fn row_matches(r: ItemRow, item: InboxItem, selected: bool, cancelled: bool, completed: bool) -> bool {
    &&& r.tone == (if cancelled {
        Tone::Danger
    } else if completed {
        Tone::Success
    } else if selected {
        Tone::Primary
    } else {
        Tone::Muted
    })
    &&& r.active == (!cancelled && (selected || completed))
    &&& r.receiving == (!cancelled && !completed && is_moving(item))
    &&& r.is_text == starts_with(item.file_type@, "text/"@)
    &&& r.status@ == row_status_text(item, selected, cancelled, completed)
}

/// The row of one item of the session.
pub fn item_row(item: &InboxItem, selected_ids: &Vec<String>, cancelled: bool, completed: bool) -> (r:
    ItemRow)
    ensures
        row_matches(r, *item, is_selected(selected_ids@, item.file_id@), cancelled, completed),
{
    let selected = ids_contain(selected_ids, selected_ids.len(), item.file_id.as_str());
    assert(selected_ids@.subrange(0, selected_ids@.len() as int) == selected_ids@);
    let tone = if cancelled {
        Tone::Danger
    } else if completed {
        Tone::Success
    } else if selected {
        Tone::Primary
    } else {
        Tone::Muted
    };
    let moving = item.bytes_received > 0 && item.bytes_received < item.size;
    let status = if cancelled {
        "已取消".to_owned()
    } else if completed || item.saved_path.is_some() || item.saved_uri.is_some() {
        "已保存".to_owned()
    } else if moving {
        let mut out: Vec<char> = Vec::new();
        push_size(&mut out, item.bytes_received);
        push_text(&mut out, " / ");
        push_size(&mut out, item.size);
        if item.speed_bytes_per_sec > 0 {
            push_text(&mut out, " · ");
            push_size(&mut out, item.speed_bytes_per_sec);
            push_text(&mut out, "/s");
        }
        crate::text::string_of(out.as_slice())
    } else if selected {
        format_file_size(item.size)
    } else {
        "未选择".to_owned()
    };
    let is_text = str_starts_with(item.file_type.as_str(), "text/");
    assert(status@ == row_status_text(*item, selected, cancelled, completed));
    ItemRow {
        tone,
        active: !cancelled && (selected || completed),
        receiving: !cancelled && !completed && moving,
        is_text,
        status,
    }
}


/// The session through which a text entry of the history is shown again: a
/// completed message from the entry's device, holding the entry's text.
pub open spec fn history_session_matches(s: InboxSession, entry: crate::history::HistoryEntry, text: Seq<char>) -> bool {
    &&& s.session_id@ == "history-text-"@ + entry.id@
    &&& s.sender_alias == entry.device_name
    &&& s.sender_device_model is Some && s.sender_device_model->0@ == "NearSend"@
    &&& s.sender_fingerprint@ == "history"@
    &&& s.direction == entry.direction
    &&& s.items@.len() == 1
    &&& s.items@[0].file_id@ == "history-item-"@ + entry.id@
    &&& s.items@[0].file_name == entry.file_name
    &&& s.items@[0].file_type@ == "text/plain"@
    &&& s.items@[0].size == entry.file_size
    &&& s.items@[0].bytes_received == entry.file_size
    &&& s.items@[0].speed_bytes_per_sec == 0
    &&& s.items@[0].saved_path is None
    &&& s.items@[0].saved_uri is None
    &&& s.items@[0].text_content is Some && s.items@[0].text_content->0@ == text
    &&& s.completed && !s.cancelled && s.decision_submitted && s.is_message_only
    &&& s.selected_file_ids@.len() == 0
}

/// Reopens a text entry of the history as a message, or says why it cannot.
pub fn history_text_session(entry: &crate::history::HistoryEntry) -> (r: Result<InboxSession, String>)
    ensures
        match crate::history::text_content_of(*entry) {
            Some(t) => r is Ok && history_session_matches(r->Ok_0, *entry, t),
            None => r is Err && r->Err_0@ == "该文本历史缺少内容，无法打开。"@,
        },
{
    let content = match crate::history::resolve_text_content(entry) {
        Some(c) => c,
        None => {
            return Err("该文本历史缺少内容，无法打开。".to_owned());
        },
    };
    let item = InboxItem {
        file_id: crate::text::concat_str("history-item-", entry.id.as_str()),
        file_name: entry.file_name.clone(),
        file_type: "text/plain".to_owned(),
        size: entry.file_size,
        bytes_received: entry.file_size,
        speed_bytes_per_sec: 0,
        saved_path: None,
        saved_uri: None,
        text_content: Some(content),
    };
    let items = vec![item];
    Ok(InboxSession {
        session_id: crate::text::concat_str("history-text-", entry.id.as_str()),
        sender_alias: entry.device_name.clone(),
        sender_device_model: Some("NearSend".to_owned()),
        sender_fingerprint: "history".to_owned(),
        items,
        selected_file_ids: Vec::new(),
        is_message_only: true,
        cancelled: false,
        completed: true,
        decision_submitted: true,
        direction: entry.direction,
    })
}

/// A text entry reopened from the history is shown as a received message:
/// the page offers only to close it and shows its text.
pub proof fn lemma_history_session_shows_message(s: InboxSession, entry: crate::history::HistoryEntry, text: Seq<char>)
    requires
        history_session_matches(s, entry, text),
    ensures
        spec_incoming_actions(Some(s)) == IncomingActions::Close,
        message_of(s) is Some && message_of(s)->0@ == text,
{
}

} // verus!
