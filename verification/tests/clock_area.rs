use nearsend::clock::{date_group_label, format_time_of_day, format_timestamp};
use nearsend::modes::SendMode;
use nearsend::safe_area::{applied_margins, avoid_reach, AvoidArea, EdgePixels, Rect};
use nearsend::send_flow::{send_aftermath, SelectedFileInfo, SendEnding};

#[test]
fn placeable_timestamps_get_a_local_date_and_time() {
    let s = format_timestamp(1_700_000_000);
    assert_ne!(s, "-");
    assert!(s.starts_with("2023/11/14 ") || s.starts_with("2023/11/15 "));
    let t = format_time_of_day(1_700_000_000);
    assert_eq!(t.len(), 5);
    assert_eq!(&t[2..3], ":");
    assert_ne!(date_group_label(1_700_000_000), "更早");
}

#[test]
fn unplaceable_timestamps_read_as_unknown() {
    assert_eq!(format_timestamp(9_000_000_000_000), "-");
    assert_eq!(format_time_of_day(9_000_000_000_000), "-");
    assert_eq!(date_group_label(9_000_000_000_000), "更早");
}

fn area(visible: bool, top: i32, right: i32, bottom: i32, left: i32) -> AvoidArea {
    AvoidArea { visible, top_height: top, right_width: right, bottom_height: bottom, left_width: left }
}

#[test]
fn avoid_areas_reach_their_largest_visible_extent() {
    let areas = vec![area(true, 96, 0, 0, -5), area(false, 400, 400, 400, 400), area(true, 40, 0, 64, 12)];
    assert_eq!(avoid_reach(&areas), EdgePixels { top: 96, right: 0, bottom: 64, left: 12 });
    assert_eq!(avoid_reach(&vec![]), EdgePixels { top: 0, right: 0, bottom: 0, left: 0 });
}

#[test]
fn the_content_rectangle_leaves_its_margins_free() {
    let content = Rect { left: 0, top: 80, width: 1080, height: 2200 };
    let window = Rect { left: 0, top: 0, width: 1080, height: 2340 };
    assert_eq!(applied_margins(content, window), EdgePixels { top: 80, right: 0, bottom: 60, left: 0 });
    let bigger = Rect { left: -10, top: -4, width: 2000, height: 3000 };
    assert_eq!(applied_margins(bigger, window), EdgePixels { top: 0, right: 0, bottom: 0, left: 0 });
}

fn file_item(name: &str) -> SelectedFileInfo {
    SelectedFileInfo {
        path: format!("/data/{}", name),
        source_uri: None,
        name: name.to_string(),
        size: 10,
        file_type: "image/png".to_string(),
        text_content: None,
    }
}

#[test]
fn only_a_completed_send_is_recorded() {
    let files = vec![file_item("a.png"), file_item("b.png")];
    let done = send_aftermath(SendEnding::Completed, SendMode::Single, &files, "Pad", 100);
    assert_eq!(done.history.len(), 2);
    assert_eq!(done.history[1].file_name, "b.png");
    assert!(done.clear_selection);
    let multi = send_aftermath(SendEnding::Completed, SendMode::Multiple, &files, "Pad", 100);
    assert!(!multi.clear_selection);
    let failed = send_aftermath(SendEnding::Declined, SendMode::Single, &files, "Pad", 100);
    assert!(failed.history.is_empty());
    assert!(!failed.clear_selection);
}
