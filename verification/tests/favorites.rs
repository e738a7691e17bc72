use nearsend::favorites::{
    add_favorite_lines, edit_favorite_title, favorite_form, favorite_send_target,
    initial_port_text, remove_favorite_question, FavoriteDevice,
};

fn fav(alias: &str, custom: bool) -> FavoriteDevice {
    FavoriteDevice {
        token: "tok".to_string(),
        alias: alias.to_string(),
        ip: "10.0.0.2".to_string(),
        port: 53317,
        https: true,
        custom_alias: custom,
    }
}

#[test]
fn new_favorites_are_keyed_by_address() {
    let d = favorite_form("", " 10.0.0.9 ", "53317", None).unwrap();
    assert_eq!(d.token, "manual:10.0.0.9:53317");
    assert_eq!(d.alias, "10.0.0.9");
    assert_eq!(d.ip, "10.0.0.9");
    assert_eq!(d.port, 53317);
    assert!(!d.https);
    assert!(!d.custom_alias);
    let d = favorite_form(" Pad ", "h", "80", None).unwrap();
    assert_eq!(d.alias, "Pad");
    assert!(d.custom_alias);
}

#[test]
fn edited_favorites_keep_their_token() {
    let f = fav("Mate", false);
    let d = favorite_form("Mate", "10.0.0.3", "1", Some(&f)).unwrap();
    assert_eq!(d.token, "tok");
    assert!(d.https);
    assert!(!d.custom_alias);
    let d = favorite_form("Other", "10.0.0.3", "1", Some(&f)).unwrap();
    assert!(d.custom_alias);
    let d = favorite_form("Mate", "10.0.0.3", "1", Some(&fav("Mate", true))).unwrap();
    assert!(d.custom_alias);
    let d = favorite_form("X", "10.0.0.3", "1", Some(&fav("", false))).unwrap();
    assert!(d.custom_alias);
}

#[test]
fn form_errors() {
    assert_eq!(
        favorite_form("a", "  ", "1", None).unwrap_err(),
        "IP 地址不能为空"
    );
    assert_eq!(
        favorite_form("a", "h", "0", None).unwrap_err(),
        "端口必须是 1-65535 的数字"
    );
    assert_eq!(
        favorite_form("a", "h", "70000", None).unwrap_err(),
        "端口必须是 1-65535 的数字"
    );
}

#[test]
fn dialog_texts() {
    assert_eq!(edit_favorite_title(true), "编辑收藏设备");
    assert_eq!(edit_favorite_title(false), "添加收藏设备");
    assert_eq!(initial_port_text(None), "53317");
    assert_eq!(initial_port_text(Some(&fav("a", false))), "53317");
    assert_eq!(remove_favorite_question(" "), "确认将 \"该设备\" 从收藏夹移除吗？");
    assert_eq!(remove_favorite_question("Pad"), "确认将 \"Pad\" 从收藏夹移除吗？");
    let (a, b) = add_favorite_lines("", "10.0.0.2", 8080);
    assert_eq!(a, "设备名：10.0.0.2");
    assert_eq!(b, "地址：10.0.0.2:8080");
    assert_eq!(
        favorite_send_target(false, &fav("a", false)).unwrap_err(),
        "收藏设备暂不可达，请确认设备在线并在同一网络。"
    );
    assert_eq!(
        favorite_send_target(true, &fav("a", false)).unwrap(),
        ("10.0.0.2".to_string(), 53317)
    );
}
