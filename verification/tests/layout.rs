use nearsend::layout::{classify_layout, parse_device_class, DeviceClass, LayoutMode, ResponsiveLayout};

#[test]
fn phone_layout_stays_compact() {
    assert_eq!(classify_layout(430, false, DeviceClass::Phone), LayoutMode::Phone);
    assert_eq!(classify_layout(1200, true, DeviceClass::Phone), LayoutMode::Phone);
    assert_eq!(classify_layout(839, true, DeviceClass::TwoInOne), LayoutMode::Phone);
}

#[test]
fn wide_and_pointer_windows_use_desktop_layout() {
    assert_eq!(classify_layout(840, false, DeviceClass::Other), LayoutMode::Desktop);
    assert_eq!(classify_layout(840, false, DeviceClass::TwoInOne), LayoutMode::Desktop);
    assert_eq!(classify_layout(840, true, DeviceClass::Other), LayoutMode::Desktop);
}

#[test]
fn content_width_can_be_specialized_for_desktop_pages() {
    let phone = ResponsiveLayout {
        mode: LayoutMode::Phone,
        content_width: 640,
        page_padding: 16,
    };
    let desktop = ResponsiveLayout {
        mode: LayoutMode::Desktop,
        content_width: 1180,
        page_padding: 24,
    };

    assert_eq!(phone.content_max_width(800), 640);
    assert_eq!(desktop.content_max_width(800), 800);
}

#[test]
fn narrow_windows_are_phones_whatever_the_class() {
    assert_eq!(classify_layout(839, false, DeviceClass::Other), LayoutMode::Phone);
    assert_eq!(classify_layout(0, true, DeviceClass::TwoInOne), LayoutMode::Phone);
}

#[test]
fn device_class_labels_are_read_loosely() {
    assert_eq!(parse_device_class(" Phone "), DeviceClass::Phone);
    assert_eq!(parse_device_class("default"), DeviceClass::Phone);
    assert_eq!(parse_device_class("2IN1"), DeviceClass::TwoInOne);
    assert_eq!(parse_device_class("pc"), DeviceClass::TwoInOne);
    assert_eq!(parse_device_class("tablet"), DeviceClass::Other);
    assert_eq!(DeviceClass::default(), DeviceClass::Other);
}

#[test]
fn current_layout_picks_the_metrics_of_its_mode() {
    let l = ResponsiveLayout::current(1200, true, DeviceClass::Other);
    assert!(l.is_desktop());
    assert_eq!(l.content_width, 1180);
    assert_eq!(l.page_padding, 24);
    let p = ResponsiveLayout::current(400, false, DeviceClass::Phone);
    assert!(!p.is_desktop());
    assert_eq!(p.content_width, 640);
    assert_eq!(p.page_padding, 16);
}
