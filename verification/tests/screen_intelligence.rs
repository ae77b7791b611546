use openhuman::screen_intelligence::context::{AppContext, WindowBounds};
use openhuman::screen_intelligence::server::{initial_state, session_state, ServerState, SiServerConfig};
use openhuman::screen_intelligence::vision::{latest_with_image, recent_indices};
use openhuman::screen_intelligence::vision::preview;

#[test]
fn default_server_config() {
    let cfg = SiServerConfig::default();
    assert_eq!(cfg.port, 7797);
    assert!(!cfg.auto_start_session);
    assert_eq!(cfg.session_ttl_secs, 300);
    assert!(cfg.vision_enabled);
}

#[test]
fn server_state_wire_names() {
    assert_eq!(ServerState::CaptureAndVision.as_str(), "capture_and_vision");
    assert_eq!(ServerState::Stopped.as_str(), "stopped");
    assert_eq!(initial_state(), ServerState::Stopped);
    assert_eq!(session_state(true), ServerState::CaptureAndVision);
    assert_eq!(session_state(false), ServerState::Capturing);
}

#[test]
fn embedded_config_takes_app_settings() {
    let cfg = SiServerConfig::embedded(120, false);
    assert_eq!(cfg.port, 7797);
    assert!(!cfg.auto_start_session);
    assert_eq!(cfg.session_ttl_secs, 120);
    assert!(!cfg.vision_enabled);
}

#[test]
fn recent_summaries_newest_first_with_clamped_limit() {
    assert_eq!(recent_indices(5, Some(2)), vec![4, 3]);
    assert_eq!(recent_indices(3, None), vec![2, 1, 0]);
    assert_eq!(recent_indices(3, Some(0)), vec![2]);
    assert_eq!(recent_indices(200, None).len(), 10);
    assert_eq!(recent_indices(200, Some(500)).len(), 120);
}

#[test]
fn flush_picks_latest_frame_with_image() {
    assert_eq!(latest_with_image(&vec![true, false, true, false]), Some(2));
    assert_eq!(latest_with_image(&vec![false, false]), None);
}

#[test]
fn app_context_comparison_and_text() {
    let a = AppContext {
        app_name: Some("Code".into()),
        window_title: Some("Main.RS".into()),
        bounds: Some(WindowBounds { x: 0, y: 0, width: 10, height: 10 }),
    };
    let b = a.clone();
    assert!(a.same_as(&b));
    let c = AppContext { bounds: None, ..a.clone() };
    assert!(!a.same_as(&c));
    assert_eq!(a.as_compound_text(), "code main.rs");
    let d = AppContext { app_name: None, window_title: None, bounds: None };
    assert_eq!(d.as_compound_text(), " ");
}

#[test]
fn previews_are_cut_with_ellipsis() {
    assert_eq!(preview("short", 120), "short");
    assert_eq!(preview("abcdef", 3), "abc…");
    assert_eq!(preview("ééé", 2), "éé…");
}
