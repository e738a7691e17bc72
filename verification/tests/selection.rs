use nearsend::selection::{
    clipboard_action, collapse_whitespace, file_kind_icon, item_title, pick_failed_notice,
    pick_notice, text_edit_action, ClipboardAction, ClipboardPickOutcome, FileKindIcon,
    TextEditAction,
};
use nearsend::send_flow::SelectedFileInfo;

fn file(name: &str, text: Option<&str>) -> SelectedFileInfo {
    SelectedFileInfo {
        path: String::new(),
        source_uri: None,
        name: name.to_string(),
        size: 0,
        file_type: String::new(),
        text_content: text.map(|t| t.to_string()),
    }
}

#[test]
fn whitespace_collapses_to_single_spaces() {
    assert_eq!(collapse_whitespace("  a \n\t b  c "), "a b c");
    assert_eq!(collapse_whitespace(" \u{3000} "), "");
    assert_eq!(collapse_whitespace("one"), "one");
}

#[test]
fn titles() {
    assert_eq!(item_title(&file("x", Some("  hello \n world "))), "\"hello world\"");
    assert_eq!(item_title(&file("x", Some("   "))), "文本");
    assert_eq!(item_title(&file(" ", None)), "未命名文件");
    assert_eq!(item_title(&file("a.pdf", None)), "a.pdf");
}

#[test]
fn icons() {
    assert_eq!(file_kind_icon(&file("a.PNG", None)), FileKindIcon::Image);
    assert_eq!(file_kind_icon(&file("b.jpeg", None)), FileKindIcon::Image);
    assert_eq!(file_kind_icon(&file("c.svg", None)), FileKindIcon::Image);
    assert_eq!(file_kind_icon(&file("d.pngx", None)), FileKindIcon::File);
    assert_eq!(file_kind_icon(&file("e.png", Some("t"))), FileKindIcon::Text);
}

#[test]
fn clipboard_outcomes() {
    match clipboard_action(ClipboardPickOutcome::Success("hi".to_string())) {
        ClipboardAction::AddText(t) => assert_eq!(t, "hi"),
        _ => panic!("add expected"),
    }
    assert!(matches!(
        clipboard_action(ClipboardPickOutcome::Success(String::new())),
        ClipboardAction::Nothing
    ));
    assert!(matches!(clipboard_action(ClipboardPickOutcome::Empty), ClipboardAction::ShowEmptyToast));
    match clipboard_action(ClipboardPickOutcome::PermissionDenied) {
        ClipboardAction::Notice(m) => assert_eq!(m, "无权限。请开启权限。"),
        _ => panic!("notice expected"),
    }
    match clipboard_action(ClipboardPickOutcome::ReadFailed) {
        ClipboardAction::Notice(m) => assert_eq!(m, "读取剪贴板失败。"),
        _ => panic!("notice expected"),
    }
}

#[test]
fn picker_outcomes() {
    assert_eq!(pick_notice(0, 0, 0), None);
    assert_eq!(pick_notice(2, 0, 0).as_deref(), Some("选择文件失败。"));
    assert_eq!(
        pick_notice(2, 1, 0).as_deref(),
        Some("未添加到可发送文件，请确认已授权并且文件可读。")
    );
    assert_eq!(pick_notice(2, 1, 1), None);
    assert_eq!(pick_failed_notice(), "选择文件失败。");
}

#[test]
fn text_edits() {
    assert!(matches!(text_edit_action(None, String::new()), TextEditAction::KeepOpen));
    match text_edit_action(None, "a".to_string()) {
        TextEditAction::Add(t) => assert_eq!(t, "a"),
        _ => panic!("add expected"),
    }
    match text_edit_action(Some(3), " ".to_string()) {
        TextEditAction::Replace(i, t) => {
            assert_eq!(i, 3);
            assert_eq!(t, " ");
        }
        _ => panic!("replace expected"),
    }
}
