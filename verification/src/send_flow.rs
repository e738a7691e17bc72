//! The transfer of a send: what is offered to the receiver, how each reply of
//! the receiver is answered, how a session ends, and what the history keeps.
//! The network calls are made by the caller, which reports each reply here and
//! does what the returned step says.

use vstd::prelude::*;
use crate::fmt::decimal;
use crate::history::{HistoryEntry, HistoryEntryKind, TransferDirection, TransferStatus};
use crate::ids::{is_uuid_text, random_uuid_text};
use crate::send::SendSessionStatus;
use crate::text::{concat_str, is_blank, is_blank_str};

verus! {

/// An item of the selection, as the send page holds it. Text items carry their
/// text; files carry where they are read from.
#[derive(Clone, Debug)]
pub struct SelectedFileInfo {
    pub path: String,
    pub source_uri: Option<String>,
    pub name: String,
    pub size: u64,
    pub file_type: String,
    pub text_content: Option<String>,
}

/// An item handed to the transfer.
#[derive(Clone, Debug)]
pub enum SendFileEntry {
    Text { content: String },
    File { path: String, name: String, size: u64, file_type: String },
}

pub open spec fn entry_of(f: SelectedFileInfo) -> SendFileEntry {
    match f.text_content {
        Some(t) => SendFileEntry::Text { content: t },
        None => SendFileEntry::File {
            path: f.path,
            name: f.name,
            size: f.size,
            file_type: f.file_type,
        },
    }
}

/// The items of a selection, in order: a text item sends its text, any other
/// item its file.
pub fn entries_for_selection(files: &Vec<SelectedFileInfo>) -> (r: Vec<SendFileEntry>)
    ensures
        r@.len() == files@.len(),
        forall|i: int| 0 <= i < files@.len() ==> r@[i] == entry_of(#[trigger] files@[i]),
{
    let mut r: Vec<SendFileEntry> = Vec::new();
    let mut i: usize = 0;
    while i < files.len()
        invariant
            0 <= i <= files@.len(),
            r@.len() == i,
            forall|j: int| 0 <= j < i ==> r@[j] == entry_of(#[trigger] files@[j]),
        decreases files@.len() - i,
    {
        let f = &files[i];
        let e = match &f.text_content {
            Some(t) => SendFileEntry::Text { content: t.clone() },
            None => SendFileEntry::File {
                path: f.path.clone(),
                name: f.name.clone(),
                size: f.size,
                file_type: f.file_type.clone(),
            },
        };
        r.push(e);
        i = i + 1;
    }
    r
}

pub open spec fn is_single_text(entries: Seq<SendFileEntry>) -> bool {
    entries.len() == 1 && entries[0] is Text
}

/// Whether the selection is one text message and nothing else; only then is
/// the text offered as a preview.
pub fn is_single_text_message(entries: &Vec<SendFileEntry>) -> (b: bool)
    ensures
        b == is_single_text(entries@),
{
    entries.len() == 1 && match &entries[0] {
        SendFileEntry::Text { .. } => true,
        SendFileEntry::File { .. } => false,
    }
}

pub open spec fn has_file(entries: Seq<SendFileEntry>) -> bool {
    exists|i: int| 0 <= i < entries.len() && (#[trigger] entries[i]) is File
}

/// Whether any item is a file; only then is a transfer shown in progress.
pub fn has_binary_file(entries: &Vec<SendFileEntry>) -> (b: bool)
    ensures
        b == has_file(entries@),
{
    let mut i: usize = 0;
    while i < entries.len()
        invariant
            0 <= i <= entries@.len(),
            forall|j: int| 0 <= j < i ==> (#[trigger] entries@[j]) is Text,
        decreases entries@.len() - i,
    {
        if let SendFileEntry::File { .. } = &entries[i] {
            return true;
        }
        i = i + 1;
    }
    false
}

/// Gives every item an identifier of its own, keeping the order.
pub fn assign_item_ids(entries: Vec<SendFileEntry>) -> (r: Vec<(String, SendFileEntry)>)
    ensures
        r@.len() == entries@.len(),
        forall|i: int|
            0 <= i < entries@.len() ==> (#[trigger] r@[i]).1 == entries@[i] && is_uuid_text(
                r@[i].0@,
            ),
{
    let ghost orig = entries@;
    let mut rest = entries;
    let mut r: Vec<(String, SendFileEntry)> = Vec::new();
    while rest.len() > 0
        invariant
            r@.len() + rest@.len() == orig.len(),
            rest@ == orig.subrange(r@.len() as int, orig.len() as int),
            forall|j: int|
                0 <= j < r@.len() ==> (#[trigger] r@[j]).1 == orig[j] && is_uuid_text(r@[j].0@),
        decreases rest@.len(),
    {
        let e = rest.remove(0);
        let id = random_uuid_text();
        r.push((id, e));
    }
    r
}

/// What the receiver is told of one item before the upload.
#[derive(Clone, Debug)]
pub struct FileOffer {
    pub id: String,
    pub file_name: String,
    pub size: u64,
    pub file_type: String,
    pub preview: Option<String>,
}

/// The size of a text item: the length of its UTF-8 encoding.
pub open spec fn utf8_size(t: Seq<char>) -> nat {
    vstd::utf8::encode_utf8(t).len()
}

/// An offer describes its item: a text is `message.txt` of type `text/plain`,
/// sized by its UTF-8 bytes, with the text as preview when it is the only
/// item; a file keeps its name, size and type and has no preview.
pub open spec fn offer_describes(o: FileOffer, id: Seq<char>, e: SendFileEntry, single: bool) -> bool {
    &&& o.id@ == id
    &&& match e {
        SendFileEntry::Text { content } => {
            &&& o.file_name@ == "message.txt"@
            &&& o.size == utf8_size(content@)
            &&& o.file_type@ == "text/plain"@
            &&& (if single {
                o.preview is Some && o.preview->0@ == content@
            } else {
                o.preview is None
            })
        },
        SendFileEntry::File { name, size, file_type, .. } => {
            &&& o.file_name@ == name@
            &&& o.size == size
            &&& o.file_type@ == file_type@
            &&& o.preview is None
        },
    }
}

/// The offer for one item.
pub fn file_offer(id: &str, entry: &SendFileEntry, single: bool) -> (o: FileOffer)
    ensures
        offer_describes(o, id@, *entry, single),
{
    match entry {
        SendFileEntry::Text { content } => FileOffer {
            id: id.to_owned(),
            file_name: "message.txt".to_owned(),
            size: content.as_str().as_bytes().len() as u64,
            file_type: "text/plain".to_owned(),
            preview: if single {
                Some(content.clone())
            } else {
                None
            },
        },
        SendFileEntry::File { name, size, file_type, .. } => FileOffer {
            id: id.to_owned(),
            file_name: name.clone(),
            size: *size,
            file_type: file_type.clone(),
            preview: None,
        },
    }
}

pub open spec fn items_of(items: Seq<(String, SendFileEntry)>) -> Seq<SendFileEntry> {
    Seq::new(items.len(), |i: int| items[i].1)
}

/// The offers of all items, in order.
pub fn build_offers(items: &Vec<(String, SendFileEntry)>) -> (r: Vec<FileOffer>)
    ensures
        r@.len() == items@.len(),
        forall|i: int|
            0 <= i < items@.len() ==> offer_describes(
                #[trigger] r@[i],
                items@[i].0@,
                items@[i].1,
                is_single_text(items_of(items@)),
            ),
{
    let single = items.len() == 1 && match &items[0].1 {
        SendFileEntry::Text { .. } => true,
        SendFileEntry::File { .. } => false,
    };
    assert(single == is_single_text(items_of(items@)));
    let mut r: Vec<FileOffer> = Vec::new();
    let mut i: usize = 0;
    while i < items.len()
        invariant
            0 <= i <= items@.len(),
            r@.len() == i,
            single == is_single_text(items_of(items@)),
            forall|j: int|
                0 <= j < i ==> offer_describes(#[trigger] r@[j], items@[j].0@, items@[j].1, single),
        decreases items@.len() - i,
    {
        let o = file_offer(items[i].0.as_str(), &items[i].1, single);
        r.push(o);
        i = i + 1;
    }
    r
}

/// The `Content-Type` of an upload.
pub fn upload_content_type(entry: &SendFileEntry) -> (t: String)
    ensures
        t@ == match *entry {
            SendFileEntry::Text { .. } => "text/plain"@,
            SendFileEntry::File { file_type, .. } => file_type@,
        },
{
    match entry {
        SendFileEntry::Text { .. } => "text/plain".to_owned(),
        SendFileEntry::File { file_type, .. } => file_type.clone(),
    }
}

/// The `Content-Length` of an upload.
pub fn upload_content_length(entry: &SendFileEntry) -> (n: u64)
    ensures
        n == match *entry {
            SendFileEntry::Text { content } => utf8_size(content@),
            SendFileEntry::File { size, .. } => size as nat,
        },
{
    match entry {
        SendFileEntry::Text { content } => content.as_str().as_bytes().len() as u64,
        SendFileEntry::File { size, .. } => *size,
    }
}


/// The four ways a prepare request is tried, in this order: the v2 endpoints
/// over HTTP and HTTPS, then the v3 endpoints of the legacy client.
#[derive(Clone, Copy, Debug, PartialEq, Eq, Structural)]
pub enum Route {
    V2Http,
    V2Https,
    V3Http,
    V3Https,
}

pub open spec fn route_rank(r: Route) -> nat {
    match r {
        Route::V2Http => 0,
        Route::V2Https => 1,
        Route::V3Http => 2,
        Route::V3Https => 3,
    }
}

pub open spec fn is_v2(r: Route) -> bool {
    r == Route::V2Http || r == Route::V2Https
}

pub open spec fn route_scheme(r: Route) -> Seq<char> {
    match r {
        Route::V2Http | Route::V3Http => "http"@,
        Route::V2Https | Route::V3Https => "https"@,
    }
}

/// The URL scheme of a route.
pub fn scheme_of(r: Route) -> (s: &'static str)
    ensures
        s@ == route_scheme(r),
{
    match r {
        Route::V2Http | Route::V3Http => "http",
        Route::V2Https | Route::V3Https => "https",
    }
}

/// `scheme://ip:port` followed by a path.
pub open spec fn endpoint(scheme: Seq<char>, ip: Seq<char>, port: u16, path: Seq<char>) -> Seq<char> {
    scheme + "://"@ + ip + ":"@ + decimal(port as nat) + path
}

/// Builds `scheme://ip:port` followed by `path`.
pub fn endpoint_url(scheme: &str, ip: &str, port: u16, path: &str) -> (u: String)
    ensures
        u@ == endpoint(scheme@, ip@, port, path@),
{
    let mut u = concat_str(scheme, "://");
    u.append(ip);
    u.append(":");
    let digits = crate::fmt::decimal_chars(port as u64);
    let port_text = crate::text::string_of(digits.as_slice());
    u.append(port_text.as_str());
    u.append(path);
    u
}

pub open spec fn prepare_path(r: Route) -> Seq<char> {
    if is_v2(r) {
        "/api/localsend/v2/prepare-upload"@
    } else {
        "/api/localsend/v3/prepare-upload"@
    }
}

/// Where the prepare request of a route is posted.
pub fn prepare_url(r: Route, ip: &str, port: u16) -> (u: String)
    ensures
        u@ == endpoint(route_scheme(r), ip@, port, prepare_path(r)),
{
    let path = if matches!(r, Route::V2Http | Route::V2Https) {
        "/api/localsend/v2/prepare-upload"
    } else {
        "/api/localsend/v3/prepare-upload"
    };
    endpoint_url(scheme_of(r), ip, port, path)
}

/// Where this device introduces itself on a v2 route.
pub fn register_url(scheme: &str, ip: &str, port: u16) -> (u: String)
    ensures
        u@ == endpoint(scheme@, ip@, port, "/api/localsend/v2/register"@),
{
    endpoint_url(scheme, ip, port, "/api/localsend/v2/register")
}

/// Where a file of a v2 session is uploaded.
pub fn upload_url(scheme: &str, ip: &str, port: u16) -> (u: String)
    ensures
        u@ == endpoint(scheme@, ip@, port, "/api/localsend/v2/upload"@),
{
    endpoint_url(scheme, ip, port, "/api/localsend/v2/upload")
}

/// Where a session is cancelled.
pub fn cancel_url(scheme: &str, ip: &str, port: u16) -> (u: String)
    ensures
        u@ == endpoint(scheme@, ip@, port, "/api/localsend/v2/cancel"@),
{
    endpoint_url(scheme, ip, port, "/api/localsend/v2/cancel")
}

/// The schemes a cancel is sent over: the one the session settled on, or
/// both when none was settled yet.
pub fn cancel_schemes(settled: Option<String>) -> (r: Vec<String>)
    ensures
        match settled {
            Some(s) => r@.len() == 1 && r@[0]@ == s@,
            None => r@.len() == 2 && r@[0]@ == "http"@ && r@[1]@ == "https"@,
        },
{
    match settled {
        Some(s) => vec![s],
        None => vec!["http".to_owned(), "https".to_owned()],
    }
}

/// What a reply to a prepare request calls for.
#[derive(Clone, Copy, Debug, PartialEq, Eq, Structural)]
pub enum PrepareAction {
    /// v2 accepted a message that needs no upload.
    NoUploadNeeded,
    /// A success: the body holds the session.
    ReadSession,
    /// The receiver asks for a PIN.
    AskPin,
    Declined,
    RecipientBusy,
    TooManyAttempts,
    /// Any other status: the next route is tried.
    TryNext,
}

pub open spec fn spec_prepare_action(code: u16, v2: bool) -> PrepareAction {
    if v2 && code == 204 {
        PrepareAction::NoUploadNeeded
    } else if 200 <= code < 300 {
        PrepareAction::ReadSession
    } else if code == 401 {
        PrepareAction::AskPin
    } else if code == 403 {
        PrepareAction::Declined
    } else if code == 409 {
        PrepareAction::RecipientBusy
    } else if code == 429 {
        PrepareAction::TooManyAttempts
    } else {
        PrepareAction::TryNext
    }
}

/// Classifies the HTTP status of a prepare reply.
pub fn prepare_action(code: u16, v2: bool) -> (a: PrepareAction)
    ensures
        a == spec_prepare_action(code, v2),
{
    if v2 && code == 204 {
        PrepareAction::NoUploadNeeded
    } else if 200 <= code && code < 300 {
        PrepareAction::ReadSession
    } else if code == 401 {
        PrepareAction::AskPin
    } else if code == 403 {
        PrepareAction::Declined
    } else if code == 409 {
        PrepareAction::RecipientBusy
    } else if code == 429 {
        PrepareAction::TooManyAttempts
    } else {
        PrepareAction::TryNext
    }
}

/// How a send ends.
#[derive(Clone, Copy, Debug, PartialEq, Eq, Structural)]
pub enum SendEnding {
    Completed,
    Declined,
    RecipientBusy,
    TooManyAttempts,
    PinCancelled,
    NoRoute,
    Cancelled,
    UploadRejected,
    UploadNetworkError,
    UploadError,
    MissingCertificate,
    ClientSetupFailed,
    HttpClientSetupFailed,
}

pub open spec fn ending_status(e: SendEnding) -> SendSessionStatus {
    match e {
        SendEnding::Completed => SendSessionStatus::Completed,
        SendEnding::Declined => SendSessionStatus::Declined,
        SendEnding::RecipientBusy => SendSessionStatus::RecipientBusy,
        SendEnding::TooManyAttempts => SendSessionStatus::TooManyAttempts,
        SendEnding::PinCancelled | SendEnding::Cancelled => SendSessionStatus::CancelledByUser,
        _ => SendSessionStatus::Failed,
    }
}

/// `发送失败（` + `inner` + `）`.
pub open spec fn failed_with(inner: Seq<char>) -> Seq<char> {
    "发送失败（"@ + inner + "）"@
}

/// The status line of an ending; `code` is the text of the HTTP status that
/// caused it, where one did.
pub open spec fn ending_message(e: SendEnding, code: Seq<char>) -> Seq<char> {
    match e {
        SendEnding::Completed => "发送完成"@,
        SendEnding::Declined | SendEnding::RecipientBusy | SendEnding::TooManyAttempts => failed_with(code),
        SendEnding::PinCancelled => "已取消输入 PIN"@,
        SendEnding::NoRoute => "发送失败（准备阶段）"@,
        SendEnding::Cancelled => "已取消发送"@,
        SendEnding::UploadRejected => failed_with("上传状态 "@ + code),
        SendEnding::UploadNetworkError => "发送失败（上传网络错误）"@,
        SendEnding::UploadError => "发送失败（上传错误）"@,
        SendEnding::MissingCertificate => "发送失败（缺少证书）"@,
        SendEnding::ClientSetupFailed => "发送失败（初始化失败）"@,
        SendEnding::HttpClientSetupFailed => "发送失败（客户端初始化失败）"@,
    }
}

/// The notice shown to the user, if any.
pub open spec fn ending_notice(e: SendEnding, code: Seq<char>) -> Option<Seq<char>> {
    match e {
        SendEnding::Completed | SendEnding::Cancelled => None,
        SendEnding::Declined => Some("对方已拒绝本次传输请求。"@),
        SendEnding::RecipientBusy => Some("对方当前正忙，请稍后重试。"@),
        SendEnding::TooManyAttempts => Some("PIN 尝试次数过多，请稍后再试。"@),
        SendEnding::PinCancelled => Some("已取消输入 PIN。"@),
        SendEnding::NoRoute => Some("发送失败，请检查对端状态后重试。"@),
        SendEnding::UploadRejected => Some("发送失败：文件上传状态异常（"@ + code + "）。"@),
        SendEnding::UploadNetworkError => Some("发送失败：上传过程中发生网络错误。"@),
        SendEnding::UploadError => Some("发送失败：上传过程中发生错误。"@),
        SendEnding::MissingCertificate => Some("发送失败：本端证书不可用。"@),
        SendEnding::ClientSetupFailed => Some("发送失败：无法初始化传输客户端。"@),
        SendEnding::HttpClientSetupFailed => Some("发送失败：无法初始化网络客户端。"@),
    }
}

/// What becomes of the transfer shown in progress, if any.
pub open spec fn ending_transfer_status(e: SendEnding) -> Option<TransferStatus> {
    match e {
        SendEnding::Completed => Some(TransferStatus::Completed),
        SendEnding::Cancelled => Some(TransferStatus::Cancelled),
        SendEnding::PinCancelled => None,
        _ => Some(TransferStatus::Failed),
    }
}

/// What the page is told when a send ends.
#[derive(Clone, Debug)]
pub struct SendReport {
    pub status: SendSessionStatus,
    pub message: String,
    pub notice: Option<String>,
    pub transfer_status: Option<TransferStatus>,
}

pub open spec fn report_matches(r: SendReport, e: SendEnding, code: Seq<char>) -> bool {
    &&& r.status == ending_status(e)
    &&& r.message@ == ending_message(e, code)
    &&& match ending_notice(e, code) {
        Some(n) => r.notice is Some && r.notice->0@ == n,
        None => r.notice is None,
    }
    &&& r.transfer_status == ending_transfer_status(e)
}

fn failed_with_text(inner: &str) -> (s: String)
    ensures
        s@ == failed_with(inner@),
{
    let mut s = "发送失败（".to_owned();
    s.append(inner);
    s.append("）");
    s
}

/// The report of an ending; `code` is the text of the HTTP status behind it.
pub fn ending_report(e: SendEnding, code: &str) -> (r: SendReport)
    ensures
        report_matches(r, e, code@),
{
    let status = match e {
        SendEnding::Completed => SendSessionStatus::Completed,
        SendEnding::Declined => SendSessionStatus::Declined,
        SendEnding::RecipientBusy => SendSessionStatus::RecipientBusy,
        SendEnding::TooManyAttempts => SendSessionStatus::TooManyAttempts,
        SendEnding::PinCancelled | SendEnding::Cancelled => SendSessionStatus::CancelledByUser,
        _ => SendSessionStatus::Failed,
    };
    let message = match e {
        SendEnding::Completed => "发送完成".to_owned(),
        SendEnding::Declined | SendEnding::RecipientBusy | SendEnding::TooManyAttempts => failed_with_text(code),
        SendEnding::PinCancelled => "已取消输入 PIN".to_owned(),
        SendEnding::NoRoute => "发送失败（准备阶段）".to_owned(),
        SendEnding::Cancelled => "已取消发送".to_owned(),
        SendEnding::UploadRejected => {
            let inner = concat_str("上传状态 ", code);
            failed_with_text(inner.as_str())
        },
        SendEnding::UploadNetworkError => "发送失败（上传网络错误）".to_owned(),
        SendEnding::UploadError => "发送失败（上传错误）".to_owned(),
        SendEnding::MissingCertificate => "发送失败（缺少证书）".to_owned(),
        SendEnding::ClientSetupFailed => "发送失败（初始化失败）".to_owned(),
        SendEnding::HttpClientSetupFailed => "发送失败（客户端初始化失败）".to_owned(),
    };
    let notice = match e {
        SendEnding::Completed | SendEnding::Cancelled => None,
        SendEnding::Declined => Some("对方已拒绝本次传输请求。".to_owned()),
        SendEnding::RecipientBusy => Some("对方当前正忙，请稍后重试。".to_owned()),
        SendEnding::TooManyAttempts => Some("PIN 尝试次数过多，请稍后再试。".to_owned()),
        SendEnding::PinCancelled => Some("已取消输入 PIN。".to_owned()),
        SendEnding::NoRoute => Some("发送失败，请检查对端状态后重试。".to_owned()),
        SendEnding::UploadRejected => {
            let mut n = concat_str("发送失败：文件上传状态异常（", code);
            n.append("）。");
            Some(n)
        },
        SendEnding::UploadNetworkError => Some("发送失败：上传过程中发生网络错误。".to_owned()),
        SendEnding::UploadError => Some("发送失败：上传过程中发生错误。".to_owned()),
        SendEnding::MissingCertificate => Some("发送失败：本端证书不可用。".to_owned()),
        SendEnding::ClientSetupFailed => Some("发送失败：无法初始化传输客户端。".to_owned()),
        SendEnding::HttpClientSetupFailed => Some("发送失败：无法初始化网络客户端。".to_owned()),
    };
    let transfer_status = match e {
        SendEnding::Completed => Some(TransferStatus::Completed),
        SendEnding::Cancelled => Some(TransferStatus::Cancelled),
        SendEnding::PinCancelled => None,
        _ => Some(TransferStatus::Failed),
    };
    SendReport { status, message, notice, transfer_status }
}


/// Where the negotiation of a send stands: the route being tried, the PIN to
/// send with the next request, and whether no PIN was asked on this route yet.
#[derive(Clone, Debug)]
pub struct Negotiation {
    pub route: Route,
    pub pin: Option<String>,
    pub pin_first_attempt: bool,
}

/// A negotiation that has not tried anything yet.
pub fn start_negotiation() -> (n: Negotiation)
    ensures
        n.route == Route::V2Http,
        n.pin is None,
        n.pin_first_attempt,
{
    Negotiation { route: Route::V2Http, pin: None, pin_first_attempt: true }
}

/// What happened since the last step.
#[derive(Clone, Debug)]
pub enum PrepareEvent {
    /// The prepare request was answered with this HTTP status.
    Replied(u16),
    /// The body of a successful reply held a session.
    SessionRead,
    /// The body of a successful reply could not be read.
    BodyUnreadable,
    /// The request did not reach the receiver.
    Unreachable,
    /// The user answered the PIN prompt, or dismissed it.
    PinAnswered(Option<String>),
}

/// What the caller does next.
#[derive(Clone, Copy, Debug, PartialEq, Eq, Structural)]
pub enum PrepareStep {
    /// Post the prepare request again on the same route.
    Post,
    /// A new route starts: introduce this device on it, then post.
    StartRoute,
    /// The v2 routes are used up: set up the legacy client, then start the route.
    SetUpLegacy,
    /// Read the session out of the reply body.
    ReadSession,
    /// Show `PIN required`, then prompt for a PIN.
    AskPin { show_invalid_pin: bool },
    /// The session is open: upload the accepted files.
    Upload,
    /// The send is over.
    Finish(SendEnding),
}

/// Moves on to the next route, or gives up after the last.
pub open spec fn spec_advance(n: Negotiation) -> (Negotiation, PrepareStep) {
    let fresh = |r: Route| Negotiation { route: r, pin: None, pin_first_attempt: true };
    match n.route {
        Route::V2Http => (fresh(Route::V2Https), PrepareStep::StartRoute),
        Route::V2Https => (fresh(Route::V3Http), PrepareStep::SetUpLegacy),
        Route::V3Http => (fresh(Route::V3Https), PrepareStep::StartRoute),
        Route::V3Https => (n, PrepareStep::Finish(SendEnding::NoRoute)),
    }
}

/// One step of the negotiation.
pub open spec fn spec_prepare_step(n: Negotiation, ev: PrepareEvent) -> (Negotiation, PrepareStep) {
    match ev {
        PrepareEvent::Replied(code) => match spec_prepare_action(code, is_v2(n.route)) {
            PrepareAction::NoUploadNeeded => (n, PrepareStep::Finish(SendEnding::Completed)),
            PrepareAction::ReadSession => (n, PrepareStep::ReadSession),
            PrepareAction::AskPin => (
                Negotiation { route: n.route, pin: n.pin, pin_first_attempt: false },
                PrepareStep::AskPin { show_invalid_pin: !n.pin_first_attempt },
            ),
            PrepareAction::Declined => (n, PrepareStep::Finish(SendEnding::Declined)),
            PrepareAction::RecipientBusy => (n, PrepareStep::Finish(SendEnding::RecipientBusy)),
            PrepareAction::TooManyAttempts => (n, PrepareStep::Finish(SendEnding::TooManyAttempts)),
            PrepareAction::TryNext => spec_advance(n),
        },
        PrepareEvent::SessionRead => (n, PrepareStep::Upload),
        PrepareEvent::BodyUnreadable | PrepareEvent::Unreachable => spec_advance(n),
        PrepareEvent::PinAnswered(Some(p)) => (
            Negotiation { route: n.route, pin: Some(p), pin_first_attempt: n.pin_first_attempt },
            PrepareStep::Post,
        ),
        PrepareEvent::PinAnswered(None) => (n, PrepareStep::Finish(SendEnding::PinCancelled)),
    }
}

fn advance(n: &mut Negotiation) -> (step: PrepareStep)
    ensures
        (*final(n), step) == spec_advance(*old(n)),
{
    match n.route {
        Route::V2Http => {
            n.route = Route::V2Https;
            n.pin = None;
            n.pin_first_attempt = true;
            PrepareStep::StartRoute
        },
        Route::V2Https => {
            n.route = Route::V3Http;
            n.pin = None;
            n.pin_first_attempt = true;
            PrepareStep::SetUpLegacy
        },
        Route::V3Http => {
            n.route = Route::V3Https;
            n.pin = None;
            n.pin_first_attempt = true;
            PrepareStep::StartRoute
        },
        Route::V3Https => PrepareStep::Finish(SendEnding::NoRoute),
    }
}

/// Takes the negotiation one step on.
pub fn prepare_step(n: &mut Negotiation, ev: PrepareEvent) -> (step: PrepareStep)
    ensures
        (*final(n), step) == spec_prepare_step(*old(n), ev),
{
    match ev {
        PrepareEvent::Replied(code) => {
            let v2 = matches!(n.route, Route::V2Http | Route::V2Https);
            match prepare_action(code, v2) {
                PrepareAction::NoUploadNeeded => PrepareStep::Finish(SendEnding::Completed),
                PrepareAction::ReadSession => PrepareStep::ReadSession,
                PrepareAction::AskPin => {
                    let show_invalid_pin = !n.pin_first_attempt;
                    n.pin_first_attempt = false;
                    PrepareStep::AskPin { show_invalid_pin }
                },
                PrepareAction::Declined => PrepareStep::Finish(SendEnding::Declined),
                PrepareAction::RecipientBusy => PrepareStep::Finish(SendEnding::RecipientBusy),
                PrepareAction::TooManyAttempts => PrepareStep::Finish(SendEnding::TooManyAttempts),
                PrepareAction::TryNext => advance(n),
            }
        },
        PrepareEvent::SessionRead => PrepareStep::Upload,
        PrepareEvent::BodyUnreadable | PrepareEvent::Unreachable => advance(n),
        PrepareEvent::PinAnswered(Some(p)) => {
            n.pin = Some(p);
            PrepareStep::Post
        },
        PrepareEvent::PinAnswered(None) => PrepareStep::Finish(SendEnding::PinCancelled),
    }
}

/// The routes are tried in order: a step never goes back to an earlier route,
/// and it moves to a later one exactly when it starts a route or sets up the
/// legacy client.
pub proof fn lemma_routes_only_advance(n: Negotiation, ev: PrepareEvent)
    ensures
        route_rank(spec_prepare_step(n, ev).0.route) >= route_rank(n.route),
        (route_rank(spec_prepare_step(n, ev).0.route) > route_rank(n.route)) <==> (
        spec_prepare_step(n, ev).1 == PrepareStep::StartRoute || spec_prepare_step(n, ev).1
            == PrepareStep::SetUpLegacy),
{
}

/// The first PIN prompt of a route does not say the PIN was wrong; a prompt
/// after a PIN was sent on that route does.
pub proof fn lemma_pin_prompts(n: Negotiation, pin: String)
    requires
        n.pin_first_attempt,
    ensures
        ({
            let (n1, s1) = spec_prepare_step(n, PrepareEvent::Replied(401));
            let (n2, s2) = spec_prepare_step(n1, PrepareEvent::PinAnswered(Some(pin)));
            let (n3, s3) = spec_prepare_step(n2, PrepareEvent::Replied(401));
            &&& s1 == PrepareStep::AskPin { show_invalid_pin: false }
            &&& s2 == PrepareStep::Post
            &&& n2.pin == Some(pin)
            &&& s3 == PrepareStep::AskPin { show_invalid_pin: true }
        }),
{
}

/// A route that gives up moves on to the next with no PIN and a fresh prompt.
pub proof fn lemma_new_route_forgets_pin(n: Negotiation, ev: PrepareEvent)
    requires
        spec_prepare_step(n, ev).1 == PrepareStep::StartRoute || spec_prepare_step(n, ev).1
            == PrepareStep::SetUpLegacy,
    ensures
        spec_prepare_step(n, ev).0.pin is None,
        spec_prepare_step(n, ev).0.pin_first_attempt,
{
}

/// How an upload request went.
#[derive(Clone, Copy, Debug, PartialEq, Eq, Structural)]
pub enum UploadResult {
    Accepted,
    /// Answered with a status that is no success.
    Rejected,
    /// Not answered.
    Failed,
}

pub open spec fn spec_upload_ending(result: UploadResult, r: Route) -> Option<SendEnding> {
    match result {
        UploadResult::Accepted => None,
        UploadResult::Rejected => Some(
            if is_v2(r) {
                SendEnding::UploadRejected
            } else {
                SendEnding::UploadError
            },
        ),
        UploadResult::Failed => Some(
            if is_v2(r) {
                SendEnding::UploadNetworkError
            } else {
                SendEnding::UploadError
            },
        ),
    }
}

/// Whether an upload ends the send, and how.
pub fn upload_ending(result: UploadResult, r: Route) -> (e: Option<SendEnding>)
    ensures
        e == spec_upload_ending(result, r),
{
    let v2 = matches!(r, Route::V2Http | Route::V2Https);
    match result {
        UploadResult::Accepted => None,
        UploadResult::Rejected => Some(
            if v2 {
                SendEnding::UploadRejected
            } else {
                SendEnding::UploadError
            },
        ),
        UploadResult::Failed => Some(
            if v2 {
                SendEnding::UploadNetworkError
            } else {
                SendEnding::UploadError
            },
        ),
    }
}

/// What comes before the next upload: a cancelled send ends there, and a
/// session with nothing left to upload is complete.
pub open spec fn spec_next_upload(cancelled: bool, remaining: nat) -> Option<SendEnding> {
    if remaining == 0 {
        Some(SendEnding::Completed)
    } else if cancelled {
        Some(SendEnding::Cancelled)
    } else {
        None
    }
}

pub fn next_upload(cancelled: bool, remaining: usize) -> (e: Option<SendEnding>)
    ensures
        e == spec_next_upload(cancelled, remaining as nat),
{
    if remaining == 0 {
        Some(SendEnding::Completed)
    } else if cancelled {
        Some(SendEnding::Cancelled)
    } else {
        None
    }
}

/// The status shown once a session is open.
pub fn sending_message() -> (s: String)
    ensures
        s@ == "正在发送..."@,
{
    "正在发送...".to_owned()
}

/// The status shown while a PIN is asked for.
pub fn pin_required_message() -> (s: String)
    ensures
        s@ == "需要输入接收端 PIN"@,
{
    "需要输入接收端 PIN".to_owned()
}


/// A file of the transfer shown in progress.
#[derive(Clone, Debug)]
pub struct TransferFile {
    pub file_id: String,
    pub file_name: String,
    pub file_size: u64,
}

/// The files among the items, in order, as (id, name, size); texts are not
/// shown in progress.
pub open spec fn file_items(items: Seq<(String, SendFileEntry)>) -> Seq<(Seq<char>, Seq<char>, u64)>
    decreases items.len(),
{
    if items.len() == 0 {
        Seq::empty()
    } else {
        let rest = file_items(items.drop_last());
        match items.last().1 {
            SendFileEntry::File { name, size, .. } => rest.push((items.last().0@, name@, size)),
            SendFileEntry::Text { .. } => rest,
        }
    }
}

pub open spec fn transfer_file_views(fs: Seq<TransferFile>) -> Seq<(Seq<char>, Seq<char>, u64)> {
    Seq::new(fs.len(), |i: int| (fs[i].file_id@, fs[i].file_name@, fs[i].file_size))
}

/// The files of the transfer shown in progress.
pub fn transfer_files(items: &Vec<(String, SendFileEntry)>) -> (r: Vec<TransferFile>)
    ensures
        transfer_file_views(r@) == file_items(items@),
{
    let mut r: Vec<TransferFile> = Vec::new();
    let mut i: usize = 0;
    while i < items.len()
        invariant
            0 <= i <= items@.len(),
            transfer_file_views(r@) == file_items(items@.subrange(0, i as int)),
        decreases items@.len() - i,
    {
        proof {
            assert(items@.subrange(0, i + 1).drop_last() == items@.subrange(0, i as int));
        }
        if let SendFileEntry::File { name, size, .. } = &items[i].1 {
            r.push(TransferFile { file_id: items[i].0.clone(), file_name: name.clone(), file_size: *size });
            assert(transfer_file_views(r@) == file_items(items@.subrange(0, i + 1)));
        }
        i = i + 1;
    }
    assert(items@.subrange(0, items@.len() as int) == items@);
    r
}

pub open spec fn total_size(fs: Seq<(Seq<char>, Seq<char>, u64)>) -> nat
    decreases fs.len(),
{
    if fs.len() == 0 {
        0
    } else {
        total_size(fs.drop_last()) + fs.last().2 as nat
    }
}

/// The byte count of the whole transfer.
pub fn transfer_total_bytes(files: &Vec<TransferFile>) -> (n: u64)
    requires
        total_size(transfer_file_views(files@)) <= u64::MAX,
    ensures
        n == total_size(transfer_file_views(files@)),
{
    let ghost all = transfer_file_views(files@);
    let mut n: u64 = 0;
    let mut i: usize = 0;
    while i < files.len()
        invariant
            0 <= i <= files@.len(),
            all == transfer_file_views(files@),
            total_size(all) <= u64::MAX,
            n == total_size(all.subrange(0, i as int)),
        decreases files@.len() - i,
    {
        proof {
            assert(all.subrange(0, i + 1).drop_last() == all.subrange(0, i as int));
            lemma_total_size_prefix(all, i + 1);
        }
        n = n + files[i].file_size;
        i = i + 1;
    }
    assert(all.subrange(0, files@.len() as int) == all);
    n
}

/// A prefix never weighs more than the whole.
pub proof fn lemma_total_size_prefix(fs: Seq<(Seq<char>, Seq<char>, u64)>, k: int)
    requires
        0 <= k <= fs.len(),
    ensures
        total_size(fs.subrange(0, k)) <= total_size(fs),
    decreases fs.len() - k,
{
    if k < fs.len() {
        lemma_total_size_prefix(fs, k + 1);
        assert(fs.subrange(0, k + 1).drop_last() == fs.subrange(0, k));
    } else {
        assert(fs.subrange(0, k) == fs);
    }
}

/// The title of the transfer shown in progress: the name of its one file, or
/// the number of files.
pub open spec fn transfer_title_text(fs: Seq<(Seq<char>, Seq<char>, u64)>) -> Seq<char> {
    if fs.len() == 1 {
        fs[0].1
    } else {
        decimal(fs.len()) + " 个项目"@
    }
}

pub fn transfer_title(files: &Vec<TransferFile>) -> (t: String)
    ensures
        t@ == transfer_title_text(transfer_file_views(files@)),
{
    if files.len() == 1 {
        files[0].file_name.clone()
    } else {
        let digits = crate::fmt::decimal_chars(files.len() as u64);
        let mut t = crate::text::string_of(digits.as_slice());
        t.append(" 个项目");
        t
    }
}

/// The name the transfer is shown under: the chosen device's alias, or its
/// address and port.
pub open spec fn target_name(alias: Option<String>, ip: Seq<char>, port: u16) -> Seq<char> {
    match alias {
        Some(a) => a@,
        None => ip + ":"@ + decimal(port as nat),
    }
}

pub fn target_device_name(alias: Option<String>, ip: &str, port: u16) -> (s: String)
    ensures
        s@ == target_name(alias, ip@, port),
{
    match alias {
        Some(a) => a,
        None => {
            let mut s = concat_str(ip, ":");
            let digits = crate::fmt::decimal_chars(port as u64);
            let port_text = crate::text::string_of(digits.as_slice());
            s.append(port_text.as_str());
            s
        },
    }
}

/// What the history keeps of a text item: its text when it is not blank,
/// else its name.
pub open spec fn sent_text(f: SelectedFileInfo) -> Seq<char> {
    match f.text_content {
        Some(t) => if is_blank(t@) {
            f.name@
        } else {
            t@
        },
        None => f.name@,
    }
}

/// The history entry of an item that was sent.
pub open spec fn sent_entry_matches(
    e: HistoryEntry,
    f: SelectedFileInfo,
    device: Seq<char>,
    timestamp: u64,
) -> bool {
    let is_text = f.text_content is Some;
    &&& e.file_name@ == sent_text(f)
    &&& e.file_size == f.size
    &&& e.file_path@ == (if is_text {
        Seq::<char>::empty()
    } else {
        f.path@
    })
    &&& e.file_uri == f.source_uri
    &&& e.kind == (if is_text {
        HistoryEntryKind::Text
    } else {
        HistoryEntryKind::File
    })
    &&& (if is_text {
        e.text_content is Some && e.text_content->0@ == sent_text(f)
    } else {
        e.text_content is None
    })
    &&& e.direction == TransferDirection::Send
    &&& e.device_name@ == device
    &&& e.timestamp == timestamp
    &&& e.status == TransferStatus::Completed
}

/// The history entry of an item that was sent, under the given identifier.
pub fn sent_history_entry(f: &SelectedFileInfo, id: String, device: &str, timestamp: u64) -> (e:
    HistoryEntry)
    ensures
        sent_entry_matches(e, *f, device@, timestamp),
        e.id == id,
{
    let is_text = f.text_content.is_some();
    let message = match &f.text_content {
        Some(t) => if is_blank_str(t.as_str()) {
            f.name.clone()
        } else {
            t.clone()
        },
        None => f.name.clone(),
    };
    let uri = match &f.source_uri {
        Some(u) => Some(u.clone()),
        None => None,
    };
    HistoryEntry {
        id,
        file_name: message.clone(),
        file_size: f.size,
        file_path: if is_text {
            String::new()
        } else {
            f.path.clone()
        },
        file_uri: uri,
        kind: if is_text {
            HistoryEntryKind::Text
        } else {
            HistoryEntryKind::File
        },
        text_content: if is_text {
            Some(message)
        } else {
            None
        },
        direction: TransferDirection::Send,
        device_name: device.to_owned(),
        timestamp,
        status: TransferStatus::Completed,
    }
}

/// The history entries of a completed send, one per item, each under a fresh
/// identifier.
pub fn sent_history_entries(files: &Vec<SelectedFileInfo>, device: &str, timestamp: u64) -> (r: Vec<
    HistoryEntry,
>)
    ensures
        r@.len() == files@.len(),
        forall|i: int|
            0 <= i < files@.len() ==> sent_entry_matches(#[trigger] r@[i], files@[i], device@, timestamp)
                && is_uuid_text(r@[i].id@),
{
    let mut r: Vec<HistoryEntry> = Vec::new();
    let mut i: usize = 0;
    while i < files.len()
        invariant
            0 <= i <= files@.len(),
            r@.len() == i,
            forall|j: int|
                0 <= j < i ==> sent_entry_matches(#[trigger] r@[j], files@[j], device@, timestamp)
                    && is_uuid_text(r@[j].id@),
        decreases files@.len() - i,
    {
        let id = random_uuid_text();
        let e = sent_history_entry(&files[i], id, device, timestamp);
        r.push(e);
        i = i + 1;
    }
    r
}

/// In the single-send mode the selection is emptied once a send completes.
pub fn clears_selection_after_send(mode: crate::modes::SendMode) -> (b: bool)
    ensures
        b == (mode == crate::modes::SendMode::Single),
{
    matches!(mode, crate::modes::SendMode::Single)
}


/// Whether some item of the selection is a file rather than a text.
pub open spec fn selects_file(files: Seq<SelectedFileInfo>) -> bool {
    exists|i: int| 0 <= i < files.len() && (#[trigger] files[i]).text_content is None
}

/// How a send that passed its checks begins: the items it carries, and
/// whether the transfer page opens (only when a file is sent).
pub struct SendStart {
    pub entries: Vec<SendFileEntry>,
    pub opens_progress: bool,
}

/// Starts a send of the selection to `ip:port`. A refused send leaves the
/// session as it was and gives the reason. A send that starts remembers its
/// target and is preparing; it holds a fresh transfer id, and opens the
/// transfer page, exactly when some selected item is a file.
pub fn start_send(
    state: &mut crate::send::SendSessionState,
    ip: &str,
    port: u16,
    files: &Vec<SelectedFileInfo>,
) -> (r: Result<SendStart, String>)
    ensures
        match r {
            Ok(st) => {
                &&& crate::send::send_refusal(old(state).pending_send, ip@, port, files@.len()) is None
                &&& st.entries@.len() == files@.len()
                &&& forall|i: int| 0 <= i < files@.len() ==> st.entries@[i] == entry_of(#[trigger] files@[i])
                &&& st.opens_progress == selects_file(files@)
                &&& crate::send::send_started(
                    *old(state),
                    *final(state),
                    ip@,
                    port,
                    final(state).active_transfer_id,
                )
                &&& (final(state).active_transfer_id is Some <==> selects_file(files@))
                &&& (final(state).active_transfer_id matches Some(id) ==> is_uuid_text(id@))
            },
            Err(m) => {
                &&& crate::send::send_refusal(old(state).pending_send, ip@, port, files@.len())
                    == Some(m@)
                &&& *final(state) == *old(state)
            },
        },
{
    let entries = entries_for_selection(files);
    match crate::send::validate_before_send(state.pending_send, ip, port, entries.len()) {
        Err(m) => Err(m),
        Ok(()) => {
            let binary = has_binary_file(&entries);
            proof {
                if selects_file(files@) {
                    let i = choose|i: int| 0 <= i < files@.len() && (#[trigger] files@[i]).text_content is None;
                    assert(entries@[i] == entry_of(files@[i]));
                }
                if has_file(entries@) {
                    let i = choose|i: int| 0 <= i < entries@.len() && (#[trigger] entries@[i]) is File;
                    assert(entries@[i] == entry_of(files@[i]));
                    assert(files@[i].text_content is None);
                }
            }
            let transfer_id = if binary {
                Some(random_uuid_text())
            } else {
                None
            };
            crate::send::begin_send(state, ip, port, transfer_id);
            Ok(SendStart { entries, opens_progress: binary })
        },
    }
}

/// The position of the first item of the pool filed under `id`.
pub open spec fn first_with_id(pool: Seq<(String, SendFileEntry)>, id: Seq<char>, i: int) -> bool {
    &&& 0 <= i < pool.len()
    &&& pool[i].0@ == id
    &&& forall|j: int| 0 <= j < i ==> (#[trigger] pool[j]).0@ != id
}

/// Takes the item the receiver accepted under `id` out of the offered pool,
/// so that each item is uploaded at most once; an id that was not offered
/// (or was already taken) gives nothing and leaves the pool as it is.
pub fn take_accepted(pool: &mut Vec<(String, SendFileEntry)>, file_id: &str) -> (r: Option<SendFileEntry>)
    ensures
        match r {
            Some(e) => exists|i: int|
                first_with_id(old(pool)@, file_id@, i) && e == old(pool)@[i].1 && final(pool)@
                    == old(pool)@.remove(i),
            None => (forall|i: int| 0 <= i < old(pool)@.len() ==> (#[trigger] old(pool)@[i]).0@ != file_id@)
                && final(pool)@ == old(pool)@,
        },
{
    let target = crate::text::chars_of(file_id);
    let mut i: usize = 0;
    while i < pool.len()
        invariant
            0 <= i <= pool@.len(),
            pool@ == old(pool)@,
            target@ == file_id@,
            forall|j: int| 0 <= j < i ==> (#[trigger] pool@[j]).0@ != file_id@,
        decreases pool@.len() - i,
    {
        let c = crate::text::chars_of(pool[i].0.as_str());
        if crate::text::chars_eq(c.as_slice(), target.as_slice()) {
            let ghost before = pool@;
            let (_, e) = pool.remove(i);
            assert(first_with_id(before, file_id@, i as int));
            return Some(e);
        }
        i = i + 1;
    }
    None
}

/// What a send leaves behind once it ended: the history entries it records
/// and whether the selection is cleared.
pub struct SendAftermath {
    pub history: Vec<HistoryEntry>,
    pub clear_selection: bool,
}

/// Only a completed send is recorded (one entry per selected item, in
/// order) and, in single-device mode, clears the selection.
pub fn send_aftermath(
    ending: SendEnding,
    mode: crate::modes::SendMode,
    files: &Vec<SelectedFileInfo>,
    device: &str,
    timestamp: u64,
) -> (r: SendAftermath)
    ensures
        ending == SendEnding::Completed ==> r.history@.len() == files@.len() && forall|i: int|
            0 <= i < files@.len() ==> sent_entry_matches(#[trigger] r.history@[i], files@[i], device@, timestamp)
                && is_uuid_text(r.history@[i].id@),
        ending != SendEnding::Completed ==> r.history@.len() == 0,
        r.clear_selection == (ending == SendEnding::Completed && mode == crate::modes::SendMode::Single),
{
    match ending {
        SendEnding::Completed => SendAftermath {
            history: sent_history_entries(files, device, timestamp),
            clear_selection: clears_selection_after_send(mode),
        },
        _ => SendAftermath { history: Vec::new(), clear_selection: false },
    }
}

/// A refusal of the prepare request ends the send on the route it came from:
/// 403 as declined, 409 as the recipient being busy, 429 as too many
/// attempts. A success reads the session (v2 answers 204 when a message
/// needs no upload, which completes the send), and 401 prompts for the PIN
/// on the same route, saying it was wrong once a PIN was sent there.
pub proof fn lemma_prepare_replies(n: Negotiation, code: u16)
    ensures
        code == 403 ==> spec_prepare_step(n, PrepareEvent::Replied(code)) == (
            n,
            PrepareStep::Finish(SendEnding::Declined),
        ),
        code == 409 ==> spec_prepare_step(n, PrepareEvent::Replied(code)) == (
            n,
            PrepareStep::Finish(SendEnding::RecipientBusy),
        ),
        code == 429 ==> spec_prepare_step(n, PrepareEvent::Replied(code)) == (
            n,
            PrepareStep::Finish(SendEnding::TooManyAttempts),
        ),
        code == 204 && (n.route == Route::V2Http || n.route == Route::V2Https) ==> spec_prepare_step(
            n,
            PrepareEvent::Replied(code),
        ) == (n, PrepareStep::Finish(SendEnding::Completed)),
        200 <= code < 300 && !(code == 204 && (n.route == Route::V2Http || n.route == Route::V2Https))
            ==> spec_prepare_step(n, PrepareEvent::Replied(code)) == (n, PrepareStep::ReadSession),
        code == 401 ==> spec_prepare_step(n, PrepareEvent::Replied(code)) == (
            Negotiation { route: n.route, pin: n.pin, pin_first_attempt: false },
            PrepareStep::AskPin { show_invalid_pin: !n.pin_first_attempt },
        ),
{
}

/// What a negotiation that gives up on its route does next: HTTP v2 moves on
/// to HTTPS v2, HTTPS v2 sets up the legacy client for HTTP v3, HTTP v3 moves
/// on to HTTPS v3, each with no PIN and a fresh prompt; after HTTPS v3 the
/// send fails with no route left.
pub open spec fn gives_up(n: Negotiation, r: (Negotiation, PrepareStep)) -> bool {
    match n.route {
        Route::V2Http => r == (
            Negotiation { route: Route::V2Https, pin: None, pin_first_attempt: true },
            PrepareStep::StartRoute,
        ),
        Route::V2Https => r == (
            Negotiation { route: Route::V3Http, pin: None, pin_first_attempt: true },
            PrepareStep::SetUpLegacy,
        ),
        Route::V3Http => r == (
            Negotiation { route: Route::V3Https, pin: None, pin_first_attempt: true },
            PrepareStep::StartRoute,
        ),
        Route::V3Https => r == (n, PrepareStep::Finish(SendEnding::NoRoute)),
    }
}

/// A route is given up, and only then, when the receiver cannot be reached,
/// its success reply cannot be read, or it answers with a status that is no
/// success, PIN request or refusal (a 404 or 500, say). The other events:
/// a read session starts the upload, an entered PIN is posted again on the
/// same route, and a dismissed PIN prompt ends the send as cancelled.
pub proof fn lemma_prepare_events(n: Negotiation, ev: PrepareEvent)
    ensures
        (ev is Unreachable || ev is BodyUnreadable) ==> gives_up(n, spec_prepare_step(n, ev)),
        ev matches PrepareEvent::Replied(code) ==> (!(200 <= code < 300) && code != 401 && code != 403
            && code != 409 && code != 429 <==> gives_up(n, spec_prepare_step(n, ev))),
        ev is SessionRead ==> spec_prepare_step(n, ev) == (n, PrepareStep::Upload),
        ev matches PrepareEvent::PinAnswered(Some(p)) ==> spec_prepare_step(n, ev) == (
            Negotiation { route: n.route, pin: Some(p), pin_first_attempt: n.pin_first_attempt },
            PrepareStep::Post,
        ),
        ev matches PrepareEvent::PinAnswered(None) ==> spec_prepare_step(n, ev) == (
            n,
            PrepareStep::Finish(SendEnding::PinCancelled),
        ),
{
    lemma_prepare_replies(n, 0);
}

/// Whatever way a send ends, the report of its ending frees the page: it is
/// no longer sending, lets go of the cancel flag, target record and transfer
/// id, and so a new send is no longer refused as one already under way.
pub proof fn lemma_every_ending_frees_the_page(
    e: SendEnding,
    before: crate::send::SendSessionState,
    after: crate::send::SendSessionState,
    message: Option<Seq<char>>,
    ip: Seq<char>,
    port: u16,
    count: nat,
)
    requires
        before.session_status != SendSessionStatus::CancelledByUser,
        crate::send::status_applied(before, after, ending_status(e), message),
    ensures
        !after.pending_send,
        !after.has_cancel_flag,
        !after.has_active_context,
        after.active_transfer_id is None,
        crate::send::send_refusal(after.pending_send, ip, port, count) != Some("正在发送中，请稍后再试。"@),
{
    crate::send::lemma_finished_reports_free_the_session(before, after, ending_status(e), message);
    if crate::send::send_refusal(after.pending_send, ip, port, count) == Some("正在发送中，请稍后再试。"@) {
        reveal_strlit("正在发送中，请稍后再试。");
        reveal_strlit("请先选择要发送的内容。");
        reveal_strlit("目标地址不能为空。");
        reveal_strlit("目标端口无效。");
        assert("请先选择要发送的内容。"@[0] != "正在发送中，请稍后再试。"@[0]);
        assert("目标地址不能为空。"@[0] != "正在发送中，请稍后再试。"@[0]);
        assert("目标端口无效。"@[0] != "正在发送中，请稍后再试。"@[0]);
    }
}

} // verus!
