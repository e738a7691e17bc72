use nearsend::modes::TabType;
use nearsend::nav::{navigate_to, needs_new_alias, tab_label, tab_order, NavigationState};

#[test]
fn navigation_skips_the_current_page() {
    let mut n = NavigationState { current: "/".to_string(), history: vec!["/".to_string()] };
    navigate_to(&mut n, "/");
    assert_eq!(n.history.len(), 1);
    navigate_to(&mut n, "/send");
    navigate_to(&mut n, "/send");
    assert_eq!(n.current, "/send");
    assert_eq!(n.history, vec!["/".to_string(), "/send".to_string()]);
}

#[test]
fn tabs_and_alias() {
    assert_eq!(tab_order(), vec![TabType::Receive, TabType::Send, TabType::Settings]);
    assert_eq!(tab_label(TabType::Send), "发送");
    assert_eq!(tab_label(TabType::Settings), "设置");
    assert!(needs_new_alias(false, "Pad"));
    assert!(needs_new_alias(true, "  "));
    assert!(!needs_new_alias(true, "Pad"));
}
