use nearsend::peer::{DeviceType, PeerInfo};
use nearsend::server::{own_client_info, refresh_client_info, RefreshFeedback, ServerState};

fn is_uuid_shaped(s: &str) -> bool {
    let b = s.as_bytes();
    if b.len() != 36 {
        return false;
    }
    for (i, c) in b.iter().enumerate() {
        let dash = i == 8 || i == 13 || i == 18 || i == 23;
        if dash != (*c == b'-') {
            return false;
        }
        if !dash && !c.is_ascii_hexdigit() {
            return false;
        }
    }
    true
}

#[test]
fn own_identity_uses_fingerprint_as_token() {
    let info = own_client_info("Desk", "  Mate 60  ", " PC ", Some("abc123".to_string()));
    assert_eq!(info.alias, "Desk");
    assert_eq!(info.version, "2.1");
    assert_eq!(info.device_model, Some("Mate 60".to_string()));
    assert_eq!(info.device_type, Some(DeviceType::Desktop));
    assert_eq!(info.token, "abc123");
}

#[test]
fn own_identity_without_certificate_gets_random_token() {
    let a = own_client_info("A", "", " Mobile ", None);
    let b = own_client_info("A", "", " Mobile ", None);
    assert_eq!(a.device_model, Some("OpenHarmony".to_string()));
    assert_eq!(a.device_type, Some(DeviceType::Mobile));
    assert!(is_uuid_shaped(&a.token));
    assert!(is_uuid_shaped(&b.token));
    assert_ne!(a.token, b.token);
}

#[test]
fn refreshed_identity_keeps_version_and_token() {
    let existing = PeerInfo {
        alias: "Old".to_string(),
        version: "2.0".to_string(),
        device_model: None,
        device_type: None,
        token: "tok".to_string(),
    };
    let info = refresh_client_info(Some(existing), "New", "Pad", "web", "fallback".to_string());
    assert_eq!(info.alias, "New");
    assert_eq!(info.version, "2.0");
    assert_eq!(info.token, "tok");
    assert_eq!(info.device_model, Some("Pad".to_string()));
    assert_eq!(info.device_type, Some(DeviceType::Web));

    let fresh = refresh_client_info(None, "New", "", "", "fallback".to_string());
    assert_eq!(fresh.version, "2.1");
    assert_eq!(fresh.token, "fallback");
}

#[test]
fn server_state_transitions() {
    let s = ServerState { running: false, paused: true };
    assert_eq!(s.after_start(true), ServerState { running: true, paused: false });
    assert_eq!(s.after_start(false), ServerState { running: false, paused: true });
    let r = ServerState { running: true, paused: false };
    assert_eq!(r.after_stop(), ServerState { running: false, paused: false });
    assert_eq!(r.after_pause(), ServerState { running: false, paused: true });
}

#[test]
fn only_latest_refresh_hides_indicator() {
    let mut f = RefreshFeedback { refreshing: false, op_id: 7 };
    let first = f.start();
    assert_eq!(first, 8);
    let second = f.start();
    assert_eq!(second, 9);
    f.finish(first);
    assert!(f.refreshing);
    f.finish(second);
    assert!(!f.refreshing);
    assert_eq!(f.op_id, 9);

    let mut w = RefreshFeedback { refreshing: false, op_id: u64::MAX };
    assert_eq!(w.start(), 0);
}
