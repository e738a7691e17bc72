//! Receiving: which incoming requests are accepted at once, what the history
//! keeps of a received item, and the sender's short tag.

use vstd::prelude::*;
use crate::fmt::decimal2;
use crate::history::{HistoryEntry, HistoryEntryKind, TransferDirection, TransferStatus};
use crate::modes::{spec_should_quick_save, should_quick_save, QuickSaveFlags, QuickSaveMode};
use crate::peer::{spec_device_icon, DeviceIcon, PeerInfo};
use crate::text::{is_blank, is_blank_str, starts_with, str_starts_with};

verus! {

/// A file announced by a sender before the transfer.
#[derive(Clone, Debug)]
pub struct IncomingFileMeta {
    pub file_id: String,
    pub file_name: String,
    pub size: u64,
    pub file_type: String,
    pub preview: Option<String>,
}

/// A request is a message when it announces exactly one text item that
/// carries its text as preview.
pub open spec fn is_message_like(files: Seq<IncomingFileMeta>) -> bool {
    files.len() == 1 && starts_with(files[0].file_type@, "text/"@) && files[0].preview is Some
}

pub fn is_message_like_prepared(files: &Vec<IncomingFileMeta>) -> (b: bool)
    ensures
        b == is_message_like(files@),
{
    if files.len() != 1 {
        return false;
    }
    let text = str_starts_with(files[0].file_type.as_str(), "text/");
    text && files[0].preview.is_some()
}

/// Whether the sender's fingerprint is one of the favorites.
pub open spec fn is_favorite_token(tokens: Seq<String>, fingerprint: Seq<char>) -> bool {
    exists|i: int| 0 <= i < tokens.len() && (#[trigger] tokens[i])@ == fingerprint
}

pub fn favorite_tokens_contain(tokens: &Vec<String>, fingerprint: &str) -> (b: bool)
    ensures
        b == is_favorite_token(tokens@, fingerprint@),
{
    let target = crate::text::chars_of(fingerprint);
    let mut i: usize = 0;
    while i < tokens.len()
        invariant
            0 <= i <= tokens@.len(),
            target@ == fingerprint@,
            forall|j: int| 0 <= j < i ==> (#[trigger] tokens@[j])@ != fingerprint@,
        decreases tokens@.len() - i,
    {
        let candidate = crate::text::chars_of(tokens[i].as_str());
        if crate::text::chars_eq(candidate.as_slice(), target.as_slice()) {
            return true;
        }
        i = i + 1;
    }
    false
}

/// What to do with a request that was just announced.
#[derive(Clone, Copy, Debug, PartialEq, Eq, Structural)]
pub struct PreparedDecision {
    /// Accept every file without asking.
    pub accept_all: bool,
    /// Show the incoming page.
    pub open_page: bool,
}

/// A request is accepted at once when quick save applies to it; every other
/// request, a message among them, is shown to the user.
pub open spec fn spec_prepared_decision(
    files: Seq<IncomingFileMeta>,
    fingerprint: Seq<char>,
    tokens: Seq<String>,
    flags: QuickSaveFlags,
) -> PreparedDecision {
    let quick = spec_should_quick_save(
        is_message_like(files),
        flags,
        is_favorite_token(tokens, fingerprint),
    );
    PreparedDecision { accept_all: quick, open_page: !quick }
}

pub fn prepared_decision(
    files: &Vec<IncomingFileMeta>,
    fingerprint: &str,
    tokens: &Vec<String>,
    flags: QuickSaveFlags,
) -> (d: PreparedDecision)
    ensures
        d == spec_prepared_decision(files@, fingerprint@, tokens@, flags),
{
    let message = is_message_like_prepared(files);
    let favorite = favorite_tokens_contain(tokens, fingerprint);
    let quick = should_quick_save(message, flags, favorite);
    PreparedDecision { accept_all: quick, open_page: !quick }
}

/// A message is never accepted without being shown.
pub proof fn lemma_message_is_always_shown(
    files: Seq<IncomingFileMeta>,
    fingerprint: Seq<char>,
    tokens: Seq<String>,
    flags: QuickSaveFlags,
)
    requires
        is_message_like(files),
    ensures
        !spec_prepared_decision(files, fingerprint, tokens, flags).accept_all,
        spec_prepared_decision(files, fingerprint, tokens, flags).open_page,
{
}

/// With quick save on, every request that is no message is accepted at once,
/// whoever sends it.
pub proof fn lemma_quick_save_accepts_files(
    files: Seq<IncomingFileMeta>,
    fingerprint: Seq<char>,
    tokens: Seq<String>,
    flags: QuickSaveFlags,
)
    requires
        !is_message_like(files),
        flags.quick_save,
    ensures
        spec_prepared_decision(files, fingerprint, tokens, flags).accept_all,
        !spec_prepared_decision(files, fingerprint, tokens, flags).open_page,
{
}

/// When a file of the running session arrives, the incoming page is shown
/// unless that session is quick-saved.
pub open spec fn spec_file_received_opens_page(
    has_session: bool,
    is_message_only: bool,
    fingerprint: Seq<char>,
    tokens: Seq<String>,
    flags: QuickSaveFlags,
) -> bool {
    has_session && !spec_should_quick_save(
        is_message_only,
        flags,
        is_favorite_token(tokens, fingerprint),
    )
}

pub fn file_received_opens_page(
    has_session: bool,
    is_message_only: bool,
    fingerprint: &str,
    tokens: &Vec<String>,
    flags: QuickSaveFlags,
) -> (b: bool)
    ensures
        b == spec_file_received_opens_page(has_session, is_message_only, fingerprint@, tokens@, flags),
{
    if !has_session {
        return false;
    }
    let favorite = favorite_tokens_contain(tokens, fingerprint);
    !should_quick_save(is_message_only, flags, favorite)
}

/// A finished session closes by itself when auto-finish is on, unless it was a
/// message.
pub fn completed_auto_finishes(auto_finish: bool, is_message_only: bool) -> (b: bool)
    ensures
        b == (auto_finish && !is_message_only),
{
    auto_finish && !is_message_only
}

/// What the history keeps of a received item: a text item (by its type) keeps
/// its text when not blank, else its name.
pub open spec fn received_text(file_type: Seq<char>, name: Seq<char>, text: Option<String>) -> Seq<char> {
    if starts_with(file_type, "text/"@) {
        match text {
            Some(t) => if is_blank(t@) {
                name
            } else {
                t@
            },
            None => name,
        }
    } else {
        name
    }
}

/// The history entry of a received item.
pub open spec fn received_entry_matches(
    e: HistoryEntry,
    file_type: Seq<char>,
    name: Seq<char>,
    size: u64,
    text: Option<String>,
    saved_path: Option<String>,
    saved_uri: Option<String>,
    sender: Seq<char>,
    timestamp: u64,
) -> bool {
    let is_text = starts_with(file_type, "text/"@);
    &&& e.file_name@ == received_text(file_type, name, text)
    &&& e.file_size == size
    &&& e.file_path@ == match saved_path {
        Some(p) => p@,
        None => Seq::<char>::empty(),
    }
    &&& e.file_uri == saved_uri
    &&& e.kind == (if is_text {
        HistoryEntryKind::Text
    } else {
        HistoryEntryKind::File
    })
    &&& (if is_text {
        e.text_content is Some && e.text_content->0@ == received_text(file_type, name, text)
    } else {
        e.text_content is None
    })
    &&& e.direction == TransferDirection::Receive
    &&& e.device_name@ == sender
    &&& e.timestamp == timestamp
    &&& e.status == TransferStatus::Completed
}

/// The history entry of a received item, under the given identifier.
pub fn received_history_entry(
    id: String,
    file_type: &str,
    name: &str,
    size: u64,
    text: Option<String>,
    saved_path: Option<String>,
    saved_uri: Option<String>,
    sender: &str,
    timestamp: u64,
) -> (e: HistoryEntry)
    ensures
        received_entry_matches(
            e,
            file_type@,
            name@,
            size,
            text,
            saved_path,
            saved_uri,
            sender@,
            timestamp,
        ),
        e.id == id,
{
    let is_text = str_starts_with(file_type, "text/");
    let message = if is_text {
        match &text {
            Some(t) => if is_blank_str(t.as_str()) {
                name.to_owned()
            } else {
                t.clone()
            },
            None => name.to_owned(),
        }
    } else {
        name.to_owned()
    };
    let path = match saved_path {
        Some(p) => p,
        None => String::new(),
    };
    HistoryEntry {
        id,
        file_name: message.clone(),
        file_size: size,
        file_path: path,
        file_uri: saved_uri,
        kind: if is_text {
            HistoryEntryKind::Text
        } else {
            HistoryEntryKind::File
        },
        text_content: if is_text {
            Some(message)
        } else {
            None
        },
        direction: TransferDirection::Receive,
        device_name: sender.to_owned(),
        timestamp,
        status: TransferStatus::Completed,
    }
}

pub open spec fn byte_sum(b: Seq<u8>) -> nat
    decreases b.len(),
{
    if b.len() == 0 {
        0
    } else {
        byte_sum(b.drop_last()) + b.last() as nat
    }
}

/// The two-digit tag of a sender: the sum of the UTF-8 bytes of its
/// fingerprint, wrapped to 32 bits, modulo 100; `--` for no fingerprint.
pub open spec fn visual_tag_text(fingerprint: Seq<char>) -> Seq<char> {
    if fingerprint.len() == 0 {
        "--"@
    } else {
        decimal2((byte_sum(vstd::utf8::encode_utf8(fingerprint)) % 4294967296) % 100)
    }
}

pub fn visual_tag(fingerprint: &str) -> (s: String)
    ensures
        s@ == visual_tag_text(fingerprint@),
{
    if crate::text::chars_of(fingerprint).len() == 0 {
        return "--".to_owned();
    }
    let bytes = fingerprint.as_bytes();
    let mut sum: u32 = 0;
    let mut i: usize = 0;
    while i < bytes.len()
        invariant
            0 <= i <= bytes@.len(),
            sum == byte_sum(bytes@.subrange(0, i as int)) % 4294967296,
        decreases bytes@.len() - i,
    {
        let b = bytes[i];
        proof {
            let prev = byte_sum(bytes@.subrange(0, i as int));
            assert(bytes@.subrange(0, i + 1).drop_last() == bytes@.subrange(0, i as int));
            assert(byte_sum(bytes@.subrange(0, i + 1)) == prev + b as nat);
            vstd::arithmetic::div_mod::lemma_add_mod_noop(prev as int, b as int, 4294967296);
            vstd::arithmetic::div_mod::lemma_small_mod(b as nat, 4294967296);
            if sum + b < 4294967296 {
                vstd::arithmetic::div_mod::lemma_small_mod((sum + b) as nat, 4294967296);
            }
            if sum + b >= 4294967296 {
                assert((sum + b) % 4294967296 == sum + b - 4294967296) by (nonlinear_arith)
                    requires
                        4294967296 <= sum + b < 2 * 4294967296,
                ;
            }
        }
        sum = sum.wrapping_add(b as u32);
        i = i + 1;
    }
    assert(bytes@.subrange(0, bytes@.len() as int) == bytes@);
    let mut out: Vec<char> = Vec::new();
    crate::fmt::push_decimal2(&mut out, (sum % 100) as u64);
    crate::text::string_of(out.as_slice())
}


/// The request dialog: who sends, what, and which files are ticked.
#[derive(Clone, Debug)]
pub struct ReceiveDialog {
    pub sender: PeerInfo,
    pub files: Vec<IncomingFileMeta>,
    pub selected_files: Vec<bool>,
    pub session_id: String,
}

/// Whether file `i` counts as ticked in the sums: a missing flag does not.
pub open spec fn ticked(sel: Seq<bool>, i: int) -> bool {
    0 <= i < sel.len() && sel[i]
}

pub open spec fn ticked_count(sel: Seq<bool>) -> nat
    decreases sel.len(),
{
    if sel.len() == 0 {
        0
    } else {
        ticked_count(sel.drop_last()) + (if sel.last() {
            1nat
        } else {
            0nat
        })
    }
}

pub open spec fn ticked_size(files: Seq<IncomingFileMeta>, sel: Seq<bool>) -> nat
    decreases files.len(),
{
    if files.len() == 0 {
        0
    } else {
        ticked_size(files.drop_last(), sel) + (if ticked(sel, files.len() - 1) {
            files.last().size as nat
        } else {
            0
        })
    }
}

impl ReceiveDialog {
    /// A dialog with every file ticked.
    pub fn new(sender: PeerInfo, files: Vec<IncomingFileMeta>, session_id: String) -> (d: Self)
        ensures
            d.sender == sender,
            d.files@ == files@,
            d.session_id == session_id,
            d.selected_files@ == Seq::new(files@.len(), |i: int| true),
    {
        let mut selected: Vec<bool> = Vec::new();
        let mut i: usize = 0;
        while i < files.len()
            invariant
                0 <= i <= files@.len(),
                selected@ == Seq::new(i as nat, |j: int| true),
            decreases files@.len() - i,
        {
            selected.push(true);
            i = i + 1;
        }
        ReceiveDialog { sender, files, selected_files: selected, session_id }
    }

    /// Flips the tick of file `i`; nothing happens for a file that is not there.
    pub fn toggle_file(&mut self, i: usize)
        ensures
            final(self).sender == old(self).sender,
            final(self).files == old(self).files,
            final(self).session_id == old(self).session_id,
            final(self).selected_files@ == (if i < old(self).selected_files@.len() {
                old(self).selected_files@.update(i as int, !old(self).selected_files@[i as int])
            } else {
                old(self).selected_files@
            }),
    {
        if i < self.selected_files.len() {
            let v = self.selected_files[i];
            self.selected_files.set(i, !v);
        }
    }

    /// Whether file `i` is drawn ticked; a missing flag is drawn ticked.
    pub fn is_file_selected(&self, i: usize) -> (b: bool)
        ensures
            b == (if i < self.selected_files@.len() {
                self.selected_files@[i as int]
            } else {
                true
            }),
    {
        if i < self.selected_files.len() {
            self.selected_files[i]
        } else {
            true
        }
    }

    /// How many files are ticked.
    pub fn selected_count(&self) -> (n: usize)
        ensures
            n == ticked_count(self.selected_files@),
    {
        let sel = &self.selected_files;
        let mut n: usize = 0;
        let mut i: usize = 0;
        while i < sel.len()
            invariant
                0 <= i <= sel@.len(),
                n == ticked_count(sel@.subrange(0, i as int)),
                n <= i,
            decreases sel@.len() - i,
        {
            assert(sel@.subrange(0, i + 1).drop_last() == sel@.subrange(0, i as int));
            if sel[i] {
                n = n + 1;
            }
            i = i + 1;
        }
        assert(sel@.subrange(0, sel@.len() as int) == sel@);
        n
    }

    /// The total size of the ticked files; the sum must fit in 64 bits.
    pub fn selected_total_size(&self) -> (n: u64)
        requires
            ticked_size(self.files@, self.selected_files@) <= u64::MAX,
        ensures
            n == ticked_size(self.files@, self.selected_files@),
    {
        let files = &self.files;
        let sel = &self.selected_files;
        let mut n: u64 = 0;
        let mut i: usize = 0;
        while i < files.len()
            invariant
                0 <= i <= files@.len(),
                ticked_size(files@, sel@) <= u64::MAX,
                n == ticked_size(files@.subrange(0, i as int), sel@),
            decreases files@.len() - i,
        {
            proof {
                assert(files@.subrange(0, i + 1).drop_last() == files@.subrange(0, i as int));
                lemma_ticked_size_prefix(files@, sel@, i + 1);
            }
            if i < sel.len() && sel[i] {
                n = n + files[i].size;
            }
            i = i + 1;
        }
        assert(files@.subrange(0, files@.len() as int) == files@);
        n
    }

    /// The sender's model, empty when it gave none.
    pub fn sender_model(&self) -> (s: String)
        ensures
            s@ == match self.sender.device_model {
                Some(m) => m@,
                None => Seq::<char>::empty(),
            },
    {
        match &self.sender.device_model {
            Some(m) => m.clone(),
            None => String::new(),
        }
    }

    /// The icon of the sender's device.
    pub fn sender_icon(&self) -> (i: DeviceIcon)
        ensures
            i == spec_device_icon(self.sender.device_type),
    {
        crate::peer::device_icon(self.sender.device_type)
    }
}

/// A prefix of the files never weighs more than all of them.
pub proof fn lemma_ticked_size_prefix(files: Seq<IncomingFileMeta>, sel: Seq<bool>, k: int)
    requires
        0 <= k <= files.len(),
    ensures
        ticked_size(files.subrange(0, k), sel) <= ticked_size(files, sel),
    decreases files.len() - k,
{
    if k < files.len() {
        lemma_ticked_size_prefix(files, sel, k + 1);
        assert(files.subrange(0, k + 1).drop_last() == files.subrange(0, k));
    } else {
        assert(files.subrange(0, k) == files);
    }
}

/// Ticking a file twice leaves the dialog as it was.
pub proof fn lemma_toggle_twice(sel: Seq<bool>, i: int)
    requires
        0 <= i < sel.len(),
    ensures
        sel.update(i, !sel[i]).update(i, !sel.update(i, !sel[i])[i]) == sel,
{
    assert(sel.update(i, !sel[i]).update(i, !sel.update(i, !sel[i])[i]) =~= sel);
}

/// A fresh dialog ticks every file.
pub proof fn lemma_new_dialog_ticks_all(n: nat)
    ensures
        ticked_count(Seq::new(n, |i: int| true)) == n,
    decreases n,
{
    if n > 0 {
        lemma_new_dialog_ticks_all((n - 1) as nat);
        assert(Seq::new(n, |i: int| true).drop_last() == Seq::new((n - 1) as nat, |i: int| true));
    }
}


/// The short id of this device on the receive tab: the last parts of its
/// addresses while the server runs, else `离线`.
pub open spec fn visual_id_text(running: bool, ips: Seq<Seq<char>>) -> Seq<char> {
    if running && ips.len() > 0 {
        crate::net::visual_ip_ids(ips)
    } else {
        "离线"@
    }
}

pub fn receive_visual_id(running: bool, ips: &Vec<String>) -> (s: String)
    ensures
        s@ == visual_id_text(running, crate::net::string_views(ips@)),
{
    if running && ips.len() > 0 {
        crate::net::format_visual_ip_ids(ips.as_slice())
    } else {
        "离线".to_owned()
    }
}

/// The state line of the receive server.
pub fn server_status_text(running: bool) -> (s: &'static str)
    ensures
        s@ == (if running {
            "正在接收"@
        } else {
            "接收服务已暂停"@
        }),
{
    if running {
        "正在接收"
    } else {
        "接收服务已暂停"
    }
}

/// The labels of the three quick-save chips, off to on.
pub fn quick_save_chip_label(index: usize) -> (s: &'static str)
    requires
        index < 3,
    ensures
        s@ == (if index == 0 {
            "关"@
        } else if index == 1 {
            "收藏夹"@
        } else {
            "开"@
        }),
{
    if index == 0 {
        "关"
    } else if index == 1 {
        "收藏夹"
    } else {
        "开"
    }
}

/// The warning shown when a quick-save mode is picked: a title and its
/// lines; none for "off".
pub open spec fn quick_save_notice_text(m: QuickSaveMode) -> Option<(Seq<char>, Seq<Seq<char>>)> {
    match m {
        QuickSaveMode::Off => None,
        QuickSaveMode::Favorites => Some(
            (
                "自动保存来自“收藏夹(白名单)”设备的文件"@,
                seq![
                    "当前会自动接受收藏夹中设备的文件请求。"@,
                    "警告：这目前并非绝对安全，若您收藏夹列表中的设备指纹被黑客窃取，其仍可以向您发送文件。"@,
                    "但是，此选项比“允许任何设备”更安全。"@,
                ],
            ),
        ),
        QuickSaveMode::On => Some(
            (
                "自动保存"@,
                seq!["自动接受所有文件传输请求。请注意，这会让此网络中的所有人都可以向你发送文件。"@],
            ),
        ),
    }
}

pub fn quick_save_notice(m: QuickSaveMode) -> (r: Option<(&'static str, Vec<&'static str>)>)
    ensures
        match quick_save_notice_text(m) {
            Some((t, lines)) => r matches Some((title, shown)) && title@ == t && shown@.len()
                == lines.len() && forall|i: int| 0 <= i < lines.len() ==> (#[trigger] shown@[i])@
                == lines[i],
            None => r is None,
        },
{
    match m {
        QuickSaveMode::Off => None,
        QuickSaveMode::Favorites => Some(
            (
                "自动保存来自“收藏夹(白名单)”设备的文件",
                vec![
                    "当前会自动接受收藏夹中设备的文件请求。",
                    "警告：这目前并非绝对安全，若您收藏夹列表中的设备指纹被黑客窃取，其仍可以向您发送文件。",
                    "但是，此选项比“允许任何设备”更安全。",
                ],
            ),
        ),
        QuickSaveMode::On => Some(
            (
                "自动保存",
                vec!["自动接受所有文件传输请求。请注意，这会让此网络中的所有人都可以向你发送文件。"],
            ),
        ),
    }
}

/// The receive settings after a quick-save mode is picked: the mode and the
/// two stored switches that describe it.
pub fn apply_quick_save_mode(flags: &mut QuickSaveFlags, mode: &mut QuickSaveMode, picked: QuickSaveMode)
    ensures
        *final(mode) == picked,
        *final(flags) == crate::modes::spec_flags_for_mode(picked),
        crate::modes::spec_mode_from_flags(*final(flags)) == picked,
{
    *mode = picked;
    *flags = crate::modes::quick_save_flags_for_mode(picked);
}

} // verus!
