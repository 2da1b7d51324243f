use panoptic::smtc::{SessionStatus, SmtcSessionManager};

#[test]
fn session_manager_is_windows_only() {
    let r = SmtcSessionManager::get_active_session_state();
    assert_eq!(r.err().unwrap(), "SMTC is only available on Windows");
}

#[test]
fn art_url_uses_forward_slashes() {
    let url = SmtcSessionManager::art_url("C:\\Users\\me\\AppData\\Local\\Temp\\panoptic_art.jpg");
    assert_eq!(url, "file:///C:/Users/me/AppData/Local/Temp/panoptic_art.jpg");
    assert_eq!(SmtcSessionManager::art_url(""), "file:///");
}

#[test]
fn session_state_converts_ticks_to_milliseconds() {
    let st = SmtcSessionManager::session_state(
        "Song".to_string(),
        "Band".to_string(),
        "Record".to_string(),
        1_800_000_000,
        12_345_678,
        SessionStatus::Playing,
        Some("C:\\Temp\\panoptic_art.jpg"),
    );
    assert_eq!(st.title, "Song");
    assert_eq!(st.artist, "Band");
    assert_eq!(st.album, "Record");
    assert_eq!(st.duration_ms, 180_000);
    assert_eq!(st.progress_ms, 1234);
    assert!(st.is_playing);
    assert_eq!(st.art_source, "file:///C:/Temp/panoptic_art.jpg");
    assert_eq!(st.formatted_output, "");
}

#[test]
fn paused_session_without_thumbnail() {
    let st = SmtcSessionManager::session_state(
        String::new(),
        String::new(),
        String::new(),
        -10_000,
        9_999,
        SessionStatus::Paused,
        None,
    );
    assert!(!st.is_playing);
    assert_eq!(st.art_source, "");
    assert_eq!(st.duration_ms, u32::MAX);
    assert_eq!(st.progress_ms, 0);
}
