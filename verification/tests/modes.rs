use nearsend::modes::{
    cycle_notice, cycle_send_mode, next_send_mode, quick_save_description, quick_save_flags_for_mode,
    quick_save_index, quick_save_mode_from_flags, send_mode_label, send_mode_of_setting,
    send_mode_setting_label, send_mode_setting_of, should_quick_save, CycleOutcome, QuickSaveFlags,
    QuickSaveMode, SendMode, SendModeSetting,
};

#[test]
fn quick_save_switches_round_trip() {
    for m in [QuickSaveMode::Off, QuickSaveMode::Favorites, QuickSaveMode::On] {
        assert_eq!(quick_save_mode_from_flags(quick_save_flags_for_mode(m)), m);
    }
    let both = QuickSaveFlags { quick_save: true, quick_save_favorites: true };
    assert_eq!(quick_save_mode_from_flags(both), QuickSaveMode::On);
    assert_eq!(quick_save_index(QuickSaveMode::Favorites), 1);
    assert_eq!(quick_save_description(QuickSaveMode::Off), "收到文件时先询问，适合公共网络。");
    let favs = QuickSaveFlags { quick_save: false, quick_save_favorites: true };
    assert!(should_quick_save(false, favs, true));
    assert!(!should_quick_save(false, favs, false));
    assert!(!should_quick_save(true, both, true));
}

#[test]
fn send_modes() {
    for m in [SendMode::Single, SendMode::Multiple, SendMode::Link] {
        assert_eq!(send_mode_of_setting(send_mode_setting_of(m)), m);
        assert_eq!(next_send_mode(next_send_mode(next_send_mode(m))), m);
    }
    assert_eq!(send_mode_label(SendMode::Link), "链接分享");
    assert_eq!(send_mode_setting_label(SendModeSetting::Multiple), "多设备");
    assert_eq!(cycle_send_mode(SendMode::Single, false), CycleOutcome::Notice(SendMode::Multiple));
    assert_eq!(cycle_send_mode(SendMode::Multiple, false), CycleOutcome::NeedsSelection);
    assert_eq!(cycle_send_mode(SendMode::Multiple, true), CycleOutcome::OpenLinkPage);
    assert_eq!(cycle_notice(SendMode::Multiple), "多设备发送模式（基础）");
}
