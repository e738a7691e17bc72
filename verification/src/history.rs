//! Transfer history: the entries, how they are described, which of them can
//! be opened, and how they are grouped under date headings.

use vstd::prelude::*;

use crate::text::{chars_of, extend_chars, is_blank, is_blank_str, join_with, push_joined, string_of, trim, trim_chars};

verus! {

/// Direction of a transfer, from this device's point of view.
#[derive(Clone, Copy, Debug, PartialEq, Eq, Structural)]
pub enum TransferDirection {
    Send,
    Receive,
}

/// State of a transfer or of one of its files.
#[derive(Clone, Copy, Debug, PartialEq, Eq, Structural)]
pub enum TransferStatus {
    Pending,
    InProgress,
    Completed,
    Failed,
    Cancelled,
    Skipped,
}

/// What a history entry holds.
#[derive(Clone, Copy, Debug, PartialEq, Eq, Structural)]
pub enum HistoryEntryKind {
    File,
    Text,
}

/// One finished transfer item, as the history keeps it.
#[derive(Clone, Debug)]
pub struct HistoryEntry {
    pub id: String,
    pub file_name: String,
    pub file_size: u64,
    pub file_path: String,
    pub file_uri: Option<String>,
    pub kind: HistoryEntryKind,
    pub text_content: Option<String>,
    pub direction: TransferDirection,
    pub device_name: String,
    pub timestamp: u64,
    pub status: TransferStatus,
}

/// Whether an optional text is present and not blank.
pub open spec fn present(t: Option<String>) -> bool {
    t is Some && !is_blank(t->0@)
}

/// Whether an entry can be opened: a text entry when it has non-blank text
/// (or, with no text at all, a non-blank name); a file entry when it has a
/// non-blank URI or its file still exists.
pub open spec fn openable(entry: HistoryEntry, file_exists: bool) -> bool {
    match entry.kind {
        HistoryEntryKind::Text => match entry.text_content {
            Some(t) => !is_blank(t@),
            None => !is_blank(entry.file_name@),
        },
        HistoryEntryKind::File => present(entry.file_uri) || file_exists,
    }
}

fn is_present(t: &Option<String>) -> (b: bool)
    ensures
        b == present(*t),
{
    match t {
        Some(s) => !is_blank_str(s.as_str()),
        None => false,
    }
}

/// Whether a history entry can be opened; `file_exists` tells whether its
/// saved file is still on disk.
pub fn is_openable_entry(entry: &HistoryEntry, file_exists: bool) -> (b: bool)
    ensures
        b == openable(*entry, file_exists),
{
    match entry.kind {
        HistoryEntryKind::Text => match &entry.text_content {
            Some(t) => !is_blank_str(t.as_str()),
            None => !is_blank_str(entry.file_name.as_str()),
        },
        HistoryEntryKind::File => is_present(&entry.file_uri) || file_exists,
    }
}

/// Which entries open: a text entry with text opens exactly when the text is
/// not blank, one without text when its name is not blank, whether or not a
/// file exists; a file entry opens when its URI is not blank or its file
/// still exists.
pub proof fn lemma_openable_entries(entry: HistoryEntry, file_exists: bool)
    ensures
        entry.kind == HistoryEntryKind::Text ==> openable(entry, true) == openable(entry, false),
        entry.kind == HistoryEntryKind::Text ==> (entry.text_content matches Some(t) ==> (openable(
            entry,
            file_exists,
        ) <==> !is_blank(t@))),
        entry.kind == HistoryEntryKind::Text && entry.text_content is None ==> (openable(entry, file_exists)
            <==> !is_blank(entry.file_name@)),
        entry.kind == HistoryEntryKind::File ==> (openable(entry, file_exists) <==> (file_exists || (
        entry.file_uri matches Some(u) && !is_blank(u@)))),
{
}

/// The text a text entry shows: its content when not blank, else its name
/// when not blank, else nothing.
pub open spec fn text_content_of(entry: HistoryEntry) -> Option<Seq<char>> {
    if present(entry.text_content) {
        Some(entry.text_content->0@)
    } else if !is_blank(entry.file_name@) {
        Some(entry.file_name@)
    } else {
        None
    }
}

/// The text to show for a text entry.
pub fn resolve_text_content(entry: &HistoryEntry) -> (r: Option<String>)
    ensures
        match r {
            Some(t) => text_content_of(*entry) == Some(t@),
            None => text_content_of(*entry) is None,
        },
{
    if let Some(text) = &entry.text_content {
        if !is_blank_str(text.as_str()) {
            return Some(text.clone());
        }
    }
    if !is_blank_str(entry.file_name.as_str()) {
        return Some(entry.file_name.clone());
    }
    None
}

/// What opening a file entry does.
#[derive(Clone, Debug)]
pub enum OpenTarget {
    Uri(String),
    Path(String),
    Missing,
}

/// Opening a file entry: by its URI when it has a non-blank one, else by its
/// path when the file exists, else it is missing.
pub fn file_open_target(entry: &HistoryEntry, file_exists: bool) -> (t: OpenTarget)
    ensures
        present(entry.file_uri) ==> t == OpenTarget::Uri(entry.file_uri->0),
        !present(entry.file_uri) && file_exists ==> t == OpenTarget::Path(entry.file_path),
        !present(entry.file_uri) && !file_exists ==> t == OpenTarget::Missing,
{
    if is_present(&entry.file_uri) {
        match &entry.file_uri {
            Some(u) => OpenTarget::Uri(u.clone()),
            None => OpenTarget::Missing,
        }
    } else if file_exists {
        OpenTarget::Path(entry.file_path.clone())
    } else {
        OpenTarget::Missing
    }
}

pub open spec fn direction_text(d: TransferDirection) -> Seq<char> {
    match d {
        TransferDirection::Send => "发送"@,
        TransferDirection::Receive => "接收"@,
    }
}

pub open spec fn kind_text(k: HistoryEntryKind) -> Seq<char> {
    match k {
        HistoryEntryKind::File => "文件"@,
        HistoryEntryKind::Text => "文本"@,
    }
}

pub open spec fn status_text(s: TransferStatus) -> Seq<char> {
    match s {
        TransferStatus::Pending => "等待中"@,
        TransferStatus::InProgress => "传输中"@,
        TransferStatus::Completed => "已完成"@,
        TransferStatus::Failed => "失败"@,
        TransferStatus::Cancelled => "已取消"@,
        TransferStatus::Skipped => "已跳过"@,
    }
}

/// The badge a status shows in the list; completed entries show none.
pub open spec fn status_badge_text(s: TransferStatus) -> Option<Seq<char>> {
    if s == TransferStatus::Completed {
        None
    } else {
        Some(status_text(s))
    }
}

pub fn format_direction(direction: TransferDirection) -> (s: &'static str)
    ensures
        s@ == direction_text(direction),
{
    match direction {
        TransferDirection::Send => "发送",
        TransferDirection::Receive => "接收",
    }
}

pub fn format_kind(kind: HistoryEntryKind) -> (s: &'static str)
    ensures
        s@ == kind_text(kind),
{
    match kind {
        HistoryEntryKind::File => "文件",
        HistoryEntryKind::Text => "文本",
    }
}

pub fn format_status(status: TransferStatus) -> (s: &'static str)
    ensures
        s@ == status_text(status),
{
    match status {
        TransferStatus::Pending => "等待中",
        TransferStatus::InProgress => "传输中",
        TransferStatus::Completed => "已完成",
        TransferStatus::Failed => "失败",
        TransferStatus::Cancelled => "已取消",
        TransferStatus::Skipped => "已跳过",
    }
}

/// The label of the status badge, if the entry shows one.
pub fn status_badge_label(status: TransferStatus) -> (s: Option<&'static str>)
    ensures
        match s {
            Some(t) => status_badge_text(status) == Some(t@),
            None => status_badge_text(status) is None,
        },
{
    match status {
        TransferStatus::Completed => None,
        _ => Some(format_status(status)),
    }
}

/// The tone of an entry's icon.
#[derive(Clone, Copy, Debug, PartialEq, Eq, Structural)]
pub enum StatusTone {
    Danger,
    Muted,
    Primary,
}

/// Failed entries are shown in the danger tone, cancelled and skipped ones
/// muted, the rest in the primary tone.
pub fn status_tone(status: TransferStatus) -> (t: StatusTone)
    ensures
        t == (match status {
            TransferStatus::Failed => StatusTone::Danger,
            TransferStatus::Cancelled | TransferStatus::Skipped => StatusTone::Muted,
            _ => StatusTone::Primary,
        }),
{
    match status {
        TransferStatus::Failed => StatusTone::Danger,
        TransferStatus::Cancelled | TransferStatus::Skipped => StatusTone::Muted,
        _ => StatusTone::Primary,
    }
}

/// The icon of an entry.
#[derive(Clone, Copy, Debug, PartialEq, Eq, Structural)]
pub enum EntryIcon {
    BookOpen,
    Upload,
    Download,
}

/// Text entries show a book; file entries an upload or download arrow.
pub fn icon_for_entry(entry: &HistoryEntry) -> (i: EntryIcon)
    ensures
        i == (match entry.kind {
            HistoryEntryKind::Text => EntryIcon::BookOpen,
            HistoryEntryKind::File => match entry.direction {
                TransferDirection::Send => EntryIcon::Upload,
                TransferDirection::Receive => EntryIcon::Download,
            },
        }),
{
    match entry.kind {
        HistoryEntryKind::Text => EntryIcon::BookOpen,
        HistoryEntryKind::File => match entry.direction {
            TransferDirection::Send => EntryIcon::Upload,
            TransferDirection::Receive => EntryIcon::Download,
        },
    }
}

} // verus!

verus! {

/// The parts of an entry's second line: direction, "文本" or the size, and
/// the device name when it is not blank.
pub open spec fn subline_parts(entry: HistoryEntry) -> Seq<Seq<char>> {
    let first = seq![
        direction_text(entry.direction),
        match entry.kind {
            HistoryEntryKind::Text => "文本"@,
            HistoryEntryKind::File => crate::fmt::file_size_text(entry.file_size as nat),
        },
    ];
    if !is_blank(entry.device_name@) {
        first.push(entry.device_name@)
    } else {
        first
    }
}

/// The second line of an entry ("发送 · 1.5 MB · Pixel").
pub open spec fn subline_text(entry: HistoryEntry) -> Seq<char> {
    join_with(subline_parts(entry), " · "@)
}

/// The second line of a history row.
pub fn format_entry_subline(entry: &HistoryEntry) -> (s: String)
    ensures
        s@ == subline_text(*entry),
{
    let sep = chars_of(" · ");
    let ghost parts = subline_parts(*entry);
    let mut out: Vec<char> = Vec::new();
    let first = chars_of(format_direction(entry.direction));
    push_joined(&mut out, first.as_slice(), sep.as_slice(), true, Ghost(Seq::<Seq<char>>::empty()));
    let second = match entry.kind {
        HistoryEntryKind::Text => chars_of("文本"),
        HistoryEntryKind::File => {
            let s = crate::fmt::format_file_size(entry.file_size);
            chars_of(s.as_str())
        },
    };
    let ghost one = seq![first@];
    push_joined(&mut out, second.as_slice(), sep.as_slice(), false, Ghost(one));
    let ghost two = seq![parts[0], parts[1]];
    assert(one.push(second@) =~= two);
    if !is_blank_str(entry.device_name.as_str()) {
        let third = chars_of(entry.device_name.as_str());
        push_joined(&mut out, third.as_slice(), sep.as_slice(), false, Ghost(two));
        assert(two.push(third@) =~= parts);
    } else {
        assert(two =~= parts);
    }
    string_of(out.as_slice())
}

/// The preview of a text shown in the details dialog: trimmed, nothing when
/// blank, cut to 160 characters followed by "…" when longer.
pub open spec fn text_preview_of(text: Seq<char>) -> Option<Seq<char>> {
    let t = trim(text);
    if t.len() == 0 {
        None
    } else if t.len() > 160 {
        Some(t.subrange(0, 160) + "…"@)
    } else {
        Some(t)
    }
}

/// The preview of an entry's text in its details dialog.
pub fn text_preview(text: &str) -> (r: Option<String>)
    ensures
        match r {
            Some(p) => text_preview_of(text@) == Some(p@),
            None => text_preview_of(text@) is None,
        },
{
    let raw = chars_of(text);
    let t = trim_chars(raw.as_slice());
    if t.len() == 0 {
        None
    } else if t.len() > 160 {
        let mut head = crate::text::slice_to_vec(t.as_slice(), 0, 160);
        extend_chars(&mut head, chars_of("…").as_slice());
        Some(string_of(head.as_slice()))
    } else {
        Some(string_of(t.as_slice()))
    }
}

} // verus!

verus! {

/// Consecutive items with the same label, gathered under that label.
pub open spec fn grouped<T>(items: Seq<T>, labels: Seq<Seq<char>>) -> Seq<(Seq<char>, Seq<T>)>
    decreases items.len(),
{
    if items.len() == 0 {
        Seq::<(Seq<char>, Seq<T>)>::empty()
    } else {
        let g = grouped(items.drop_last(), labels.drop_last());
        let l = labels[items.len() - 1];
        let x = items.last();
        if g.len() > 0 && g.last().0 == l {
            g.update(g.len() - 1, (l, g.last().1.push(x)))
        } else {
            g.push((l, seq![x]))
        }
    }
}

/// The items of all groups, in order.
pub open spec fn flatten_groups<T>(g: Seq<(Seq<char>, Seq<T>)>) -> Seq<T>
    decreases g.len(),
{
    if g.len() == 0 {
        Seq::<T>::empty()
    } else {
        flatten_groups(g.drop_last()) + g.last().1
    }
}

/// Grouping keeps every item, in order; no group is empty; neighbouring
/// groups have different labels; the last group carries the last label.
pub proof fn lemma_grouped_partitions<T>(items: Seq<T>, labels: Seq<Seq<char>>)
    requires
        labels.len() == items.len(),
    ensures
        flatten_groups(grouped(items, labels)) == items,
        forall|k: int|
            0 <= k < grouped(items, labels).len() ==> #[trigger] grouped(items, labels)[k].1.len()
                > 0,
        forall|k: int|
            0 < k < grouped(items, labels).len() ==> #[trigger] grouped(items, labels)[k].0
                != grouped(items, labels)[k - 1].0,
        items.len() > 0 ==> grouped(items, labels).len() > 0 && grouped(items, labels).last().0
            == labels.last(),
    decreases items.len(),
{
    if items.len() > 0 {
        let it = items.drop_last();
        let lb = labels.drop_last();
        lemma_grouped_partitions(it, lb);
        let g = grouped(it, lb);
        let l = labels[items.len() - 1];
        let x = items.last();
        assert(labels.last() == l);
        if g.len() > 0 && g.last().0 == l {
            let ng = g.update(g.len() - 1, (l, g.last().1.push(x)));
            assert(ng.drop_last() == g.drop_last());
            assert(flatten_groups(g) == flatten_groups(g.drop_last()) + g.last().1);
            assert(flatten_groups(ng) == flatten_groups(g.drop_last()) + g.last().1.push(x));
            assert(flatten_groups(g.drop_last()) + g.last().1.push(x) =~= (flatten_groups(
                g.drop_last(),
            ) + g.last().1).push(x));
            assert(it.push(x) =~= items);
            assert(flatten_groups(ng) =~= items);
        } else {
            let ng = g.push((l, seq![x]));
            assert(ng.drop_last() == g);
            assert(it.push(x) =~= items);
            assert(flatten_groups(ng) == flatten_groups(g) + seq![x]);
            assert(flatten_groups(ng) =~= items);
        }
    }
}

/// Every item sits in a group that carries the item's own label.
pub proof fn lemma_grouped_labels<T>(items: Seq<T>, labels: Seq<Seq<char>>)
    requires
        labels.len() == items.len(),
    ensures
        forall|k: int, j: int|
            0 <= k < grouped(items, labels).len() && 0 <= j < grouped(items, labels)[k].1.len()
                ==> exists|i: int|
                0 <= i < items.len() && items[i] == #[trigger] grouped(items, labels)[k].1[j]
                    && labels[i] == grouped(items, labels)[k].0,
    decreases items.len(),
{
    if items.len() > 0 {
        let it = items.drop_last();
        let lb = labels.drop_last();
        lemma_grouped_labels(it, lb);
        let g = grouped(it, lb);
        let ng = grouped(items, labels);
        let n = items.len() - 1;
        assert forall|k: int, j: int| 0 <= k < ng.len() && 0 <= j < ng[k].1.len() implies exists|
            i: int,
        | 0 <= i < items.len() && items[i] == #[trigger] ng[k].1[j] && labels[i] == ng[k].0 by {
            if k < g.len() && j < g[k].1.len() {
                assert(ng[k].1[j] == g[k].1[j] && ng[k].0 == g[k].0);
                let i = choose|i: int| 0 <= i < it.len() && it[i] == g[k].1[j] && lb[i] == g[k].0;
                assert(items[i] == it[i] && labels[i] == lb[i]);
            } else {
                assert(ng[k].1[j] == items[n] && labels[n] == ng[k].0);
            }
        }
    }
}

/// Gathers consecutive items with equal labels into groups.
#[verifier::spinoff_prover]
pub fn group_by_labels<T>(items: Vec<T>, labels: Vec<String>) -> (groups: Vec<(String, Vec<T>)>)
    requires
        labels@.len() == items@.len(),
    ensures
        groups@.map_values(|g: (String, Vec<T>)| (g.0@, g.1@)) == grouped(
            items@,
            crate::net::string_views(labels@),
        ),
{
    let ghost all = items@;
    let ghost lbs = crate::net::string_views(labels@);
    let mut rest = items;
    let mut groups: Vec<(String, Vec<T>)> = Vec::new();
    let mut i: usize = 0;
    while rest.len() > 0
        invariant
            0 <= i <= all.len(),
            rest@ == all.subrange(i as int, all.len() as int),
            lbs == crate::net::string_views(labels@),
            labels@.len() == all.len(),
            groups@.map_values(|g: (String, Vec<T>)| (g.0@, g.1@)) == grouped(
                all.subrange(0, i as int),
                lbs.subrange(0, i as int),
            ),
        decreases rest@.len(),
    {
        let x = rest.remove(0);
        let label = labels[i].clone();
        let ghost before = groups@.map_values(|g: (String, Vec<T>)| (g.0@, g.1@));
        assert(all.subrange(0, i + 1).drop_last() == all.subrange(0, i as int));
        assert(lbs.subrange(0, i + 1).drop_last() == lbs.subrange(0, i as int));
        assert(all.subrange(0, i + 1).last() == x);
        assert(lbs.subrange(0, i + 1)[i as int] == label@);
        let n = groups.len();
        let same = if n > 0 {
            groups[n - 1].0 == label
        } else {
            false
        };
        if same {
            let (l, mut v) = groups.pop().unwrap();
            v.push(x);
            groups.push((l, v));
            assert(groups@.map_values(|g: (String, Vec<T>)| (g.0@, g.1@)) =~= before.update(
                before.len() - 1,
                (label@, before.last().1.push(all[i as int])),
            ));
        } else {
            let mut v: Vec<T> = Vec::new();
            v.push(x);
            groups.push((label, v));
            assert(groups@.map_values(|g: (String, Vec<T>)| (g.0@, g.1@)) =~= before.push(
                (label@, seq![all[i as int]]),
            ));
        }
        assert(i < labels.len());
        i = i + 1;
    }
    assert(all.subrange(0, all.len() as int) == all);
    assert(lbs.subrange(0, all.len() as int) == lbs);
    groups
}

} // verus!

verus! {

/// Groups the entries, in order, under their local day headings.
pub fn group_entries_by_date(entries: Vec<HistoryEntry>) -> (groups: Vec<(String, Vec<HistoryEntry>)>)
    ensures
        exists|labels: Seq<Seq<char>>|
            {
                &&& labels.len() == entries@.len()
                &&& forall|i: int|
                    0 <= i < labels.len() ==> crate::clock::local_day_label(entries@[i].timestamp, #[trigger] labels[i])
                &&& groups@.map_values(|g: (String, Vec<HistoryEntry>)| (g.0@, g.1@)) == grouped(
                    entries@,
                    labels,
                )
            },
{
    let mut labels: Vec<String> = Vec::new();
    let mut i: usize = 0;
    while i < entries.len()
        invariant
            0 <= i <= entries@.len(),
            labels@.len() == i,
            forall|k: int| 0 <= k < i ==> crate::clock::local_day_label(entries@[k].timestamp, #[trigger] labels@[k]@),
        decreases entries@.len() - i,
    {
        let l = crate::clock::date_group_label(entries[i].timestamp);
        labels.push(l);
        i = i + 1;
    }
    let ghost lbs = crate::net::string_views(labels@);
    assert forall|k: int| 0 <= k < lbs.len() implies crate::clock::local_day_label(
        entries@[k].timestamp,
        #[trigger] lbs[k],
    ) by {
        assert(lbs[k] == labels@[k]@);
    }
    group_by_labels(entries, labels)
}


/// The rows of an entry's details dialog, as (label, value): name, kind,
/// direction and status; the device when named; size and time; the text
/// preview when there is one; the URI when not empty; the path of a file when
/// not blank. `time` is the formatted time of the entry.
pub open spec fn info_rows(entry: HistoryEntry, time: Seq<char>) -> Seq<(Seq<char>, Seq<char>)> {
    let head = seq![
        ("名称"@, entry.file_name@),
        ("类型"@, kind_text(entry.kind)),
        ("方向"@, direction_text(entry.direction)),
        ("状态"@, status_text(entry.status)),
    ];
    let with_device = if is_blank(entry.device_name@) {
        head
    } else {
        head.push(("设备"@, entry.device_name@))
    };
    let with_time = with_device.push(("大小"@, crate::fmt::file_size_text(entry.file_size as nat))).push(
        ("时间"@, time),
    );
    let preview = match entry.text_content {
        Some(t) => text_preview_of(t@),
        None => None,
    };
    let with_preview = match preview {
        Some(p) => with_time.push(("内容"@, p)),
        None => with_time,
    };
    let uri = match entry.file_uri {
        Some(u) => u@,
        None => Seq::<char>::empty(),
    };
    let with_uri = if uri.len() == 0 {
        with_preview
    } else {
        with_preview.push(("URI"@, uri))
    };
    if entry.kind == HistoryEntryKind::File && !is_blank(entry.file_path@) {
        with_uri.push(("路径"@, entry.file_path@))
    } else {
        with_uri
    }
}

pub open spec fn row_views(rows: Seq<(String, String)>) -> Seq<(Seq<char>, Seq<char>)> {
    rows.map_values(|r: (String, String)| (r.0@, r.1@))
}

fn push_row(rows: &mut Vec<(String, String)>, label: &str, value: String)
    ensures
        row_views(final(rows)@) == row_views(old(rows)@).push((label@, value@)),
{
    rows.push((label.to_owned(), value));
    assert(row_views(rows@) =~= row_views(old(rows)@).push((label@, value@)));
}

pub fn entry_info_rows(entry: &HistoryEntry, time: &str) -> (rows: Vec<(String, String)>)
    ensures
        row_views(rows@) == info_rows(*entry, time@),
{
    let mut rows: Vec<(String, String)> = Vec::new();
    push_row(&mut rows, "名称", entry.file_name.clone());
    push_row(&mut rows, "类型", format_kind(entry.kind).to_owned());
    push_row(&mut rows, "方向", format_direction(entry.direction).to_owned());
    push_row(&mut rows, "状态", format_status(entry.status).to_owned());
    if !is_blank_str(entry.device_name.as_str()) {
        push_row(&mut rows, "设备", entry.device_name.clone());
    }
    push_row(&mut rows, "大小", crate::fmt::format_file_size(entry.file_size));
    push_row(&mut rows, "时间", time.to_owned());
    let preview = match &entry.text_content {
        Some(t) => text_preview(t.as_str()),
        None => None,
    };
    match preview {
        Some(p) => push_row(&mut rows, "内容", p),
        None => {},
    }
    match &entry.file_uri {
        Some(u) => if chars_of(u.as_str()).len() != 0 {
            push_row(&mut rows, "URI", u.clone());
        },
        None => {},
    }
    if matches!(entry.kind, HistoryEntryKind::File) && !is_blank_str(entry.file_path.as_str()) {
        push_row(&mut rows, "路径", entry.file_path.clone());
    }
    rows
}

/// The question before one entry is removed from the history.
pub fn delete_entry_question(file_name: &str) -> (s: String)
    ensures
        s@ == "从历史记录中删除「"@ + file_name@ + "」？"@,
{
    let mut s = crate::text::concat_str("从历史记录中删除「", file_name);
    s.append("」？");
    s
}

/// The actions offered for an entry: open it when it can be opened, view its
/// details, and delete it.
#[derive(Clone, Copy, Debug, PartialEq, Eq, Structural)]
pub enum EntryAction {
    Open,
    Details,
    Delete,
}

pub fn entry_actions(openable: bool) -> (r: Vec<EntryAction>)
    ensures
        r@ == (if openable {
            seq![EntryAction::Open, EntryAction::Details, EntryAction::Delete]
        } else {
            seq![EntryAction::Details, EntryAction::Delete]
        }),
{
    if openable {
        vec![EntryAction::Open, EntryAction::Details, EntryAction::Delete]
    } else {
        vec![EntryAction::Details, EntryAction::Delete]
    }
}

/// Why a text entry cannot be shown: it has no text.
pub fn missing_text_notice() -> (s: &'static str)
    ensures
        s@ == "该文本历史缺少内容，无法打开。"@,
{
    "该文本历史缺少内容，无法打开。"
}

} // verus!
