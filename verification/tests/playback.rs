use panoptic::playback::{effective_template, with_formatted_output, PlaybackState};

#[test]
fn test_playback_state_format() {
    let state = PlaybackState {
        title: "Test Title".to_string(),
        artist: "Test Artist".to_string(),
        album: "Test Album".to_string(),
        progress_ms: 65000,   // 1m 5s
        duration_ms: 3665000, // 1h 1m 5s
        ..Default::default()
    };

    // Standard pattern
    assert_eq!(
        state.format("Now Playing: {title} by {artist}"),
        "Now Playing: Test Title by Test Artist"
    );

    // All fields pattern
    assert_eq!(
        state.format("{title} - {artist} ({album}) [{progress_ms}/{duration_ms}]"),
        "Test Title - Test Artist (Test Album) [65000/3665000]"
    );

    // Formatted pattern
    assert_eq!(
        state.format("{title} - {progress}/{duration}"),
        "Test Title - 1:05/1:01:05"
    );

    // Components pattern
    assert_eq!(
        state.format("{progress_h}:{progress_m}:{progress_s} ({progress_m_total})"),
        "0:01:05 (1)"
    );
    assert_eq!(
        state.format("{duration_h}:{duration_m}:{duration_s} ({duration_m_total})"),
        "1:01:05 (61)"
    );

    // Raw components pattern
    assert_eq!(state.format("{progress_m_raw}:{progress_s_raw}"), "1:5");

    // Empty title yields empty string
    let empty_state = PlaybackState::default();
    assert_eq!(empty_state.format("Now Playing: {title}"), "");
}

#[test]
fn format_totals_and_padded_totals() {
    let state = PlaybackState {
        title: "T".to_string(),
        progress_ms: 125_999,
        duration_ms: 600_000,
        ..Default::default()
    };
    assert_eq!(
        state.format("{progress_s_total}|{progress_m_total_padded}|{duration_m_total_padded}|{duration_s_total}"),
        "125|02|10|600"
    );
    assert_eq!(state.format("{duration_m_raw}:{duration_s_raw}"), "10:0");
}

#[test]
fn format_keeps_text_without_placeholders_and_unknown_ones() {
    let state = PlaybackState { title: "T".to_string(), ..Default::default() };
    assert_eq!(state.format("plain text"), "plain text");
    assert_eq!(state.format("{nope} {title}"), "{nope} T");
}

#[test]
fn format_substitutes_in_order() {
    // A value that itself holds a later placeholder is substituted again.
    let state = PlaybackState {
        title: "{artist}".to_string(),
        artist: "A".to_string(),
        ..Default::default()
    };
    assert_eq!(state.format("{title}"), "A");
}

#[test]
fn effective_template_defaults() {
    assert_eq!(effective_template(None), "Now Playing: {title} by {artist}");
    assert_eq!(effective_template(Some(String::new())), "Now Playing: {title} by {artist}");
    assert_eq!(effective_template(Some("{title}".to_string())), "{title}");
}

#[test]
fn formatted_output_is_filled_in() {
    let state = PlaybackState {
        title: "Song".to_string(),
        artist: "Artist".to_string(),
        ..Default::default()
    };
    let out = with_formatted_output(state, "Now Playing: {title} by {artist}");
    assert_eq!(out.formatted_output, "Now Playing: Song by Artist");
    assert_eq!(out.title, "Song");
}
