//! Quick-save and send modes, and how they map to the stored settings.

use vstd::prelude::*;

verus! {

/// Which incoming transfers are accepted without asking.
#[derive(Clone, Copy, Debug, PartialEq, Eq, Structural)]
pub enum QuickSaveMode {
    Off,
    Favorites,
    On,
}

/// The two stored quick-save switches.
#[derive(Clone, Copy, Debug, PartialEq, Eq, Structural)]
pub struct QuickSaveFlags {
    pub quick_save: bool,
    pub quick_save_favorites: bool,
}

pub open spec fn spec_mode_from_flags(f: QuickSaveFlags) -> QuickSaveMode {
    if f.quick_save {
        QuickSaveMode::On
    } else if f.quick_save_favorites {
        QuickSaveMode::Favorites
    } else {
        QuickSaveMode::Off
    }
}

pub open spec fn spec_flags_for_mode(m: QuickSaveMode) -> QuickSaveFlags {
    match m {
        QuickSaveMode::Off => QuickSaveFlags { quick_save: false, quick_save_favorites: false },
        QuickSaveMode::Favorites => QuickSaveFlags { quick_save: false, quick_save_favorites: true },
        QuickSaveMode::On => QuickSaveFlags { quick_save: true, quick_save_favorites: false },
    }
}

/// The mode the stored switches describe; "all" wins over "favorites".
pub fn quick_save_mode_from_flags(f: QuickSaveFlags) -> (m: QuickSaveMode)
    ensures
        m == spec_mode_from_flags(f),
{
    if f.quick_save {
        QuickSaveMode::On
    } else if f.quick_save_favorites {
        QuickSaveMode::Favorites
    } else {
        QuickSaveMode::Off
    }
}

/// The switches stored when the user picks a mode.
pub fn quick_save_flags_for_mode(m: QuickSaveMode) -> (f: QuickSaveFlags)
    ensures
        f == spec_flags_for_mode(m),
{
    match m {
        QuickSaveMode::Off => QuickSaveFlags { quick_save: false, quick_save_favorites: false },
        QuickSaveMode::Favorites => QuickSaveFlags { quick_save: false, quick_save_favorites: true },
        QuickSaveMode::On => QuickSaveFlags { quick_save: true, quick_save_favorites: false },
    }
}

/// Storing a picked mode and reading it back gives the same mode.
pub proof fn lemma_quick_save_round_trip(m: QuickSaveMode)
    ensures
        spec_mode_from_flags(spec_flags_for_mode(m)) == m,
{
}

/// Reading the mode and storing it back keeps switches that never have both on.
pub proof fn lemma_quick_save_flags_round_trip(f: QuickSaveFlags)
    requires
        !(f.quick_save && f.quick_save_favorites),
    ensures
        spec_flags_for_mode(spec_mode_from_flags(f)) == f,
{
}

/// Position of a mode on the three-way switch (off, favorites, on).
pub fn quick_save_index(m: QuickSaveMode) -> (i: usize)
    ensures
        i == (match m {
            QuickSaveMode::Off => 0usize,
            QuickSaveMode::Favorites => 1usize,
            QuickSaveMode::On => 2usize,
        }),
{
    match m {
        QuickSaveMode::Off => 0,
        QuickSaveMode::Favorites => 1,
        QuickSaveMode::On => 2,
    }
}

pub open spec fn quick_save_description_text(m: QuickSaveMode) -> Seq<char> {
    match m {
        QuickSaveMode::Off => "收到文件时先询问，适合公共网络。"@,
        QuickSaveMode::Favorites => "自动接收收藏夹设备发送的内容。"@,
        QuickSaveMode::On => "自动接收同一网络内的所有请求。"@,
    }
}

/// The one-line explanation of a mode on the desktop receive page.
pub fn quick_save_description(m: QuickSaveMode) -> (s: &'static str)
    ensures
        s@ == quick_save_description_text(m),
{
    match m {
        QuickSaveMode::Off => "收到文件时先询问，适合公共网络。",
        QuickSaveMode::Favorites => "自动接收收藏夹设备发送的内容。",
        QuickSaveMode::On => "自动接收同一网络内的所有请求。",
    }
}

/// Whether an incoming request is accepted without asking: never for a
/// message; otherwise when quick save is on, or on for favorites and the
/// sender is one.
pub open spec fn spec_should_quick_save(
    is_message_only: bool,
    f: QuickSaveFlags,
    is_favorite: bool,
) -> bool {
    !is_message_only && (f.quick_save || (f.quick_save_favorites && is_favorite))
}

pub fn should_quick_save(is_message_only: bool, f: QuickSaveFlags, is_favorite: bool) -> (b: bool)
    ensures
        b == spec_should_quick_save(is_message_only, f, is_favorite),
{
    !is_message_only && (f.quick_save || (f.quick_save_favorites && is_favorite))
}

/// How the send tab delivers: to one device, to several, or by a link.
#[derive(Clone, Copy, Debug, PartialEq, Eq, Structural)]
pub enum SendMode {
    Single,
    Multiple,
    Link,
}

/// The stored default send mode.
#[derive(Clone, Copy, Debug, PartialEq, Eq, Structural)]
pub enum SendModeSetting {
    Single,
    Multiple,
    Link,
}

pub open spec fn spec_setting_of(m: SendMode) -> SendModeSetting {
    match m {
        SendMode::Single => SendModeSetting::Single,
        SendMode::Multiple => SendModeSetting::Multiple,
        SendMode::Link => SendModeSetting::Link,
    }
}

pub open spec fn spec_mode_of(s: SendModeSetting) -> SendMode {
    match s {
        SendModeSetting::Single => SendMode::Single,
        SendModeSetting::Multiple => SendMode::Multiple,
        SendModeSetting::Link => SendMode::Link,
    }
}

/// The setting stored for a send mode.
pub fn send_mode_setting_of(m: SendMode) -> (s: SendModeSetting)
    ensures
        s == spec_setting_of(m),
{
    match m {
        SendMode::Single => SendModeSetting::Single,
        SendMode::Multiple => SendModeSetting::Multiple,
        SendMode::Link => SendModeSetting::Link,
    }
}

/// The send mode a stored setting starts the send tab in.
pub fn send_mode_of_setting(s: SendModeSetting) -> (m: SendMode)
    ensures
        m == spec_mode_of(s),
{
    match s {
        SendModeSetting::Single => SendMode::Single,
        SendModeSetting::Multiple => SendMode::Multiple,
        SendModeSetting::Link => SendMode::Link,
    }
}

/// Storing a send mode and starting from the stored setting gives it back,
/// and the other way round.
pub proof fn lemma_send_mode_round_trip(m: SendMode, s: SendModeSetting)
    ensures
        spec_mode_of(spec_setting_of(m)) == m,
        spec_setting_of(spec_mode_of(s)) == s,
{
}

pub open spec fn send_mode_label_text(m: SendMode) -> Seq<char> {
    match m {
        SendMode::Single => "单设备"@,
        SendMode::Multiple => "多设备"@,
        SendMode::Link => "链接分享"@,
    }
}

pub fn send_mode_label(m: SendMode) -> (s: &'static str)
    ensures
        s@ == send_mode_label_text(m),
{
    match m {
        SendMode::Single => "单设备",
        SendMode::Multiple => "多设备",
        SendMode::Link => "链接分享",
    }
}

pub fn send_mode_setting_label(m: SendModeSetting) -> (s: &'static str)
    ensures
        s@ == send_mode_label_text(spec_mode_of(m)),
{
    send_mode_label(send_mode_of_setting(m))
}

pub open spec fn spec_next_send_mode(m: SendMode) -> SendMode {
    match m {
        SendMode::Single => SendMode::Multiple,
        SendMode::Multiple => SendMode::Link,
        SendMode::Link => SendMode::Single,
    }
}

/// The mode after `m` when cycling single, multiple, link.
pub fn next_send_mode(m: SendMode) -> (n: SendMode)
    ensures
        n == spec_next_send_mode(m),
{
    match m {
        SendMode::Single => SendMode::Multiple,
        SendMode::Multiple => SendMode::Link,
        SendMode::Link => SendMode::Single,
    }
}

/// Cycling three times returns to the starting mode, and never sooner.
pub proof fn lemma_send_mode_cycle(m: SendMode)
    ensures
        spec_next_send_mode(spec_next_send_mode(spec_next_send_mode(m))) == m,
        spec_next_send_mode(m) != m,
        spec_next_send_mode(spec_next_send_mode(m)) != m,
{
}

pub open spec fn cycle_notice_text(m: SendMode) -> Seq<char> {
    match m {
        SendMode::Single => "单设备发送模式"@,
        SendMode::Multiple => "多设备发送模式（基础）"@,
        SendMode::Link => "链接分享模式"@,
    }
}

/// What cycling the send mode does.
#[derive(Clone, Debug, PartialEq, Eq)]
pub enum CycleOutcome {
    /// Nothing is selected, so the link mode cannot be entered.
    NeedsSelection,
    /// Switch to the link mode and open the link page.
    OpenLinkPage,
    /// Switch to the mode and tell the user which it is.
    Notice(SendMode),
}

/// Cycles the current send mode: the link mode needs a selection and opens
/// the link page; the others announce themselves.
pub fn cycle_send_mode(current: SendMode, has_selection: bool) -> (o: CycleOutcome)
    ensures
        spec_next_send_mode(current) == SendMode::Link && !has_selection ==> o
            == CycleOutcome::NeedsSelection,
        spec_next_send_mode(current) == SendMode::Link && has_selection ==> o
            == CycleOutcome::OpenLinkPage,
        spec_next_send_mode(current) != SendMode::Link ==> o == CycleOutcome::Notice(
            spec_next_send_mode(current),
        ),
{
    let next = next_send_mode(current);
    match next {
        SendMode::Link => if has_selection {
            CycleOutcome::OpenLinkPage
        } else {
            CycleOutcome::NeedsSelection
        },
        _ => CycleOutcome::Notice(next),
    }
}

pub fn cycle_notice(m: SendMode) -> (s: &'static str)
    ensures
        s@ == cycle_notice_text(m),
{
    match m {
        SendMode::Single => "单设备发送模式",
        SendMode::Multiple => "多设备发送模式（基础）",
        SendMode::Link => "链接分享模式",
    }
}

/// The tabs of the home page.
#[derive(Clone, Copy, Debug, PartialEq, Eq, Structural)]
pub enum TabType {
    Receive,
    Send,
    Settings,
}

} // verus!
