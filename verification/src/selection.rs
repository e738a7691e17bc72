//! The selection of items to send: how each item is titled and drawn, and
//! what happens with what the clipboard or a picker hands back.

use vstd::prelude::*;
use crate::send_flow::SelectedFileInfo;
use crate::text::{ascii_lower, ascii_lower_chars, chars_of, is_blank, is_blank_str, is_white_space, is_white_space_char, join_with, push_joined, string_of};

verus! {

/// The words of a text: its maximal runs of non-whitespace characters.
pub open spec fn words(s: Seq<char>) -> Seq<Seq<char>>
    decreases s.len(),
{
    if s.len() == 0 {
        Seq::empty()
    } else {
        let w = words(s.drop_last());
        let c = s.last();
        if is_white_space(c) {
            w
        } else if s.len() >= 2 && !is_white_space(s[s.len() - 2]) {
            w.update(w.len() - 1, w.last().push(c))
        } else {
            w.push(seq![c])
        }
    }
}

/// A text whose last character is no whitespace has a word.
pub proof fn lemma_words_nonempty(s: Seq<char>)
    requires
        s.len() > 0,
        !is_white_space(s.last()),
    ensures
        words(s).len() > 0,
    decreases s.len(),
{
    if s.len() >= 2 && !is_white_space(s[s.len() - 2]) {
        assert(s.drop_last().last() == s[s.len() - 2]);
        lemma_words_nonempty(s.drop_last());
    }
}

/// Every word has a character.
pub proof fn lemma_words_are_nonempty(s: Seq<char>)
    ensures
        forall|i: int| 0 <= i < words(s).len() ==> (#[trigger] words(s)[i]).len() > 0,
    decreases s.len(),
{
    if s.len() > 0 {
        let w = words(s.drop_last());
        lemma_words_are_nonempty(s.drop_last());
        let c = s.last();
        if is_white_space(c) {
        } else if s.len() >= 2 && !is_white_space(s[s.len() - 2]) {
            assert(s.drop_last().last() == s[s.len() - 2]);
            lemma_words_nonempty(s.drop_last());
            let w2 = w.update(w.len() - 1, w.last().push(c));
            assert forall|i: int| 0 <= i < w2.len() implies (#[trigger] w2[i]).len() > 0 by {
                if i != w.len() - 1 {
                    assert(w2[i] == w[i]);
                }
            }
        } else {
            let w2 = w.push(seq![c]);
            assert forall|i: int| 0 <= i < w2.len() implies (#[trigger] w2[i]).len() > 0 by {
                if i < w.len() {
                    assert(w2[i] == w[i]);
                }
            }
        }
    }
}

proof fn lemma_join_extend_last(w: Seq<Seq<char>>, c: char, sep: Seq<char>)
    requires
        w.len() > 0,
    ensures
        join_with(w.update(w.len() - 1, w.last().push(c)), sep) == join_with(w, sep).push(c),
{
    let w2 = w.update(w.len() - 1, w.last().push(c));
    if w.len() == 1 {
        assert(w2[0] == w[0].push(c));
    } else {
        assert(w2.drop_last() =~= w.drop_last());
        assert(w2.last() == w.last().push(c));
        assert(join_with(w2, sep) =~= join_with(w, sep).push(c));
    }
}

/// A text with its whitespace runs collapsed: its words joined by single
/// spaces (`split_whitespace().join(" ")`).
pub open spec fn collapsed(s: Seq<char>) -> Seq<char> {
    join_with(words(s), seq![' '])
}

pub fn collapse_whitespace(text: &str) -> (r: String)
    ensures
        r@ == collapsed(text@),
{
    let v = chars_of(text);
    let sep: Vec<char> = vec![' '];
    let mut out: Vec<char> = Vec::new();
    let mut in_word = false;
    let mut i: usize = 0;
    while i < v.len()
        invariant
            0 <= i <= v@.len(),
            sep@ == seq![' '],
            out@ == join_with(words(v@.subrange(0, i as int)), seq![' ']),
            in_word == (i > 0 && !is_white_space(v@[i - 1])),
        decreases v@.len() - i,
    {
        let ghost pre = v@.subrange(0, i as int);
        let ghost ext = v@.subrange(0, i + 1);
        assert(ext.drop_last() == pre);
        assert(i > 0 ==> ext[i - 1] == v@[i - 1]);
        let c = v[i];
        assert(ext.last() == c);
        if is_white_space_char(c) {
            in_word = false;
        } else if in_word {
            proof {
                assert(pre.last() == v@[i - 1]);
                lemma_words_nonempty(pre);
                lemma_join_extend_last(words(pre), c, seq![' ']);
            }
            out.push(c);
        } else {
            let piece: Vec<char> = vec![c];
            assert(piece@ == seq![c]);
            let ghost done = words(pre);
            let first = out.len() == 0;
            proof {
                lemma_words_are_nonempty(pre);
                lemma_join_empty_iff(done, seq![' ']);
            }
            push_joined(&mut out, piece.as_slice(), sep.as_slice(), first, Ghost(done));
            in_word = true;
        }
        i = i + 1;
    }
    assert(v@.subrange(0, v@.len() as int) == v@);
    string_of(out.as_slice())
}

/// The words of a text are never empty, so their joining is empty exactly
/// when there are none.
proof fn lemma_join_empty_iff(w: Seq<Seq<char>>, sep: Seq<char>)
    requires
        forall|i: int| 0 <= i < w.len() ==> (#[trigger] w[i]).len() > 0,
    ensures
        (join_with(w, sep).len() == 0) == (w.len() == 0),
    decreases w.len(),
{
    if w.len() > 1 {
        lemma_join_empty_iff(w.drop_last(), sep);
        assert(w.last() == w[w.len() - 1]);
    } else if w.len() == 1 {
        assert(w[0].len() > 0);
    }
}


/// The title of an item: a text shows its collapsed text in quotes, or `文本`
/// when it has none; a file shows its name, or `未命名文件` when the name is
/// blank.
pub open spec fn item_title_text(f: SelectedFileInfo) -> Seq<char> {
    match f.text_content {
        Some(t) => if collapsed(t@).len() == 0 {
            "文本"@
        } else {
            "\""@ + collapsed(t@) + "\""@
        },
        None => if is_blank(f.name@) {
            "未命名文件"@
        } else {
            f.name@
        },
    }
}

pub fn item_title(f: &SelectedFileInfo) -> (r: String)
    ensures
        r@ == item_title_text(*f),
{
    match &f.text_content {
        Some(t) => {
            let c = collapse_whitespace(t.as_str());
            if chars_of(c.as_str()).len() == 0 {
                "文本".to_owned()
            } else {
                let mut r = "\"".to_owned();
                r.append(c.as_str());
                r.append("\"");
                r
            }
        },
        None => if is_blank_str(f.name.as_str()) {
            "未命名文件".to_owned()
        } else {
            f.name.clone()
        },
    }
}

pub open spec fn ends_with(s: Seq<char>, suffix: Seq<char>) -> bool {
    suffix.len() <= s.len() && s.subrange(s.len() - suffix.len(), s.len() as int) == suffix
}

/// Whether a file name ends, ignoring ASCII case, in a picture extension.
pub open spec fn has_image_extension(name: Seq<char>) -> bool {
    let l = ascii_lower(name);
    ||| ends_with(l, ".png"@)
    ||| ends_with(l, ".jpg"@)
    ||| ends_with(l, ".jpeg"@)
    ||| ends_with(l, ".gif"@)
    ||| ends_with(l, ".webp"@)
    ||| ends_with(l, ".bmp"@)
    ||| ends_with(l, ".svg"@)
}

fn chars_end_with(s: &[char], suffix: &str) -> (b: bool)
    ensures
        b == ends_with(s@, suffix@),
{
    let p = chars_of(suffix);
    if p.len() > s.len() {
        return false;
    }
    let off = s.len() - p.len();
    let mut i: usize = 0;
    while i < p.len()
        invariant
            p@ == suffix@,
            p@.len() <= s@.len(),
            off == s@.len() - p@.len(),
            off + p@.len() == s@.len(),
            s@.len() == s.len(),
            0 <= i <= p@.len(),
            forall|j: int| 0 <= j < i ==> s@[off + j] == p@[j],
        decreases p@.len() - i,
    {
        if s[off + i] != p[i] {
            assert(s@.subrange(off as int, s@.len() as int)[i as int] != p@[i as int]);
            return false;
        }
        i = i + 1;
    }
    assert(s@.subrange(off as int, s@.len() as int) =~= p@);
    true
}

/// How an item of the selection is drawn.
#[derive(Clone, Copy, Debug, PartialEq, Eq, Structural)]
pub enum FileKindIcon {
    Text,
    Image,
    File,
}

pub open spec fn spec_file_kind_icon(f: SelectedFileInfo) -> FileKindIcon {
    if f.text_content is Some {
        FileKindIcon::Text
    } else if has_image_extension(f.name@) {
        FileKindIcon::Image
    } else {
        FileKindIcon::File
    }
}

pub fn file_kind_icon(f: &SelectedFileInfo) -> (k: FileKindIcon)
    ensures
        k == spec_file_kind_icon(*f),
{
    if f.text_content.is_some() {
        return FileKindIcon::Text;
    }
    let v = chars_of(f.name.as_str());
    let l = ascii_lower_chars(v.as_slice());
    let s = l.as_slice();
    if chars_end_with(s, ".png") || chars_end_with(s, ".jpg") || chars_end_with(s, ".jpeg")
        || chars_end_with(s, ".gif") || chars_end_with(s, ".webp") || chars_end_with(s, ".bmp")
        || chars_end_with(s, ".svg") {
        FileKindIcon::Image
    } else {
        FileKindIcon::File
    }
}

/// What reading the clipboard gave.
#[derive(Clone, Debug)]
pub enum ClipboardPickOutcome {
    Success(String),
    Empty,
    PermissionDenied,
    ReadFailed,
}

/// What the page does with it.
#[derive(Clone, Debug)]
pub enum ClipboardAction {
    AddText(String),
    ShowEmptyToast,
    Notice(String),
    Nothing,
}

pub open spec fn clipboard_action_matches(o: ClipboardPickOutcome, a: ClipboardAction) -> bool {
    match o {
        ClipboardPickOutcome::Success(t) => if t@.len() == 0 {
            a is Nothing
        } else {
            a matches ClipboardAction::AddText(x) && x == t
        },
        ClipboardPickOutcome::Empty => a is ShowEmptyToast,
        ClipboardPickOutcome::PermissionDenied => a matches ClipboardAction::Notice(m) && m@
            == "无权限。请开启权限。"@,
        ClipboardPickOutcome::ReadFailed => a matches ClipboardAction::Notice(m) && m@
            == "读取剪贴板失败。"@,
    }
}

/// A text from the clipboard is added; an empty clipboard shows a toast, and
/// a refused or failed read a notice.
pub fn clipboard_action(o: ClipboardPickOutcome) -> (a: ClipboardAction)
    ensures
        clipboard_action_matches(o, a),
{
    match o {
        ClipboardPickOutcome::Success(t) => if chars_of(t.as_str()).len() == 0 {
            ClipboardAction::Nothing
        } else {
            ClipboardAction::AddText(t)
        },
        ClipboardPickOutcome::Empty => ClipboardAction::ShowEmptyToast,
        ClipboardPickOutcome::PermissionDenied => ClipboardAction::Notice(
            "无权限。请开启权限。".to_owned(),
        ),
        ClipboardPickOutcome::ReadFailed => ClipboardAction::Notice("读取剪贴板失败。".to_owned()),
    }
}

/// The notice after a pick: none when nothing was picked or something was
/// added; otherwise why nothing was.
pub open spec fn spec_pick_notice(picked: nat, readable: nat, added: nat) -> Option<Seq<char>> {
    if picked == 0 {
        None
    } else if readable == 0 {
        Some("选择文件失败。"@)
    } else if added == 0 {
        Some("未添加到可发送文件，请确认已授权并且文件可读。"@)
    } else {
        None
    }
}

pub fn pick_notice(picked: usize, readable: usize, added: usize) -> (r: Option<String>)
    ensures
        match spec_pick_notice(picked as nat, readable as nat, added as nat) {
            Some(m) => r is Some && r->0@ == m,
            None => r is None,
        },
{
    if picked == 0 {
        None
    } else if readable == 0 {
        Some("选择文件失败。".to_owned())
    } else if added == 0 {
        Some("未添加到可发送文件，请确认已授权并且文件可读。".to_owned())
    } else {
        None
    }
}

/// The notice when the picker itself failed.
pub fn pick_failed_notice() -> (s: &'static str)
    ensures
        s@ == "选择文件失败。"@,
{
    "选择文件失败。"
}

/// What the text dialog does on confirm: an empty text keeps it open; else
/// the text is added (no row given) or replaces row `index`.
#[derive(Clone, Debug)]
pub enum TextEditAction {
    KeepOpen,
    Add(String),
    Replace(usize, String),
}

pub fn text_edit_action(index: Option<usize>, text: String) -> (a: TextEditAction)
    ensures
        text@.len() == 0 ==> a is KeepOpen,
        text@.len() != 0 ==> match index {
            None => a matches TextEditAction::Add(t) && t == text,
            Some(i) => a matches TextEditAction::Replace(j, t) && j == i && t == text,
        },
{
    if chars_of(text.as_str()).len() == 0 {
        return TextEditAction::KeepOpen;
    }
    match index {
        None => TextEditAction::Add(text),
        Some(i) => TextEditAction::Replace(i, text),
    }
}

} // verus!
