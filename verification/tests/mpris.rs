use panoptic::mpris::{MetadataValue, MprisMetadataParser};

#[test]
fn test_parse_metadata_map_basic() {
    let mut metadata = Vec::new();
    metadata.push(("xesam:title".to_string(), MetadataValue::Str("Test Title".to_string())));
    metadata.push(("xesam:album".to_string(), MetadataValue::Str("Test Album".to_string())));
    metadata.push(("mpris:length".to_string(), MetadataValue::I64(240000000i64)));
    metadata.push((
        "mpris:artUrl".to_string(),
        MetadataValue::Str("http://example.com/art.png".to_string()),
    ));
    let array = vec![
        MetadataValue::Str("Artist A".to_string()),
        MetadataValue::Str("Artist B".to_string()),
    ];
    metadata.push(("xesam:artist".to_string(), MetadataValue::Array(array)));

    let state = MprisMetadataParser::parse_metadata_map(&metadata, "Playing", 120000000);

    assert_eq!(state.title, "Test Title");
    assert_eq!(state.artist, "Artist A, Artist B");
    assert_eq!(state.album, "Test Album");
    assert_eq!(state.art_source, "http://example.com/art.png");
    assert_eq!(state.progress_ms, 120000);
    assert_eq!(state.duration_ms, 240000);
    assert!(state.is_playing);
}

#[test]
fn test_parse_metadata_map_missing_fields() {
    let metadata = Vec::new();
    let state = MprisMetadataParser::parse_metadata_map(&metadata, "Paused", 0);

    assert_eq!(state.title, "");
    assert_eq!(state.artist, "");
    assert_eq!(state.album, "");
    assert_eq!(state.art_source, "");
    assert_eq!(state.progress_ms, 0);
    assert_eq!(state.duration_ms, 0);
    assert!(!state.is_playing);
}

#[test]
fn metadata_length_kinds_and_non_text_artists() {
    let metadata = vec![
        ("mpris:length".to_string(), MetadataValue::U32(5_000_999)),
        (
            "xesam:artist".to_string(),
            MetadataValue::Array(vec![
                MetadataValue::I32(3),
                MetadataValue::Str("Solo".to_string()),
                MetadataValue::Other,
            ]),
        ),
        ("xesam:title".to_string(), MetadataValue::I64(7)),
    ];
    let state = MprisMetadataParser::parse_metadata_map(&metadata, "playing", -2500);
    assert_eq!(state.duration_ms, 5000);
    assert_eq!(state.artist, "Solo");
    assert_eq!(state.title, "");
    assert!(!state.is_playing);
    // -2 as u32
    assert_eq!(state.progress_ms, (-2i64) as u32);
}

#[test]
fn metadata_first_entry_wins() {
    let metadata = vec![
        ("xesam:title".to_string(), MetadataValue::Str("First".to_string())),
        ("xesam:title".to_string(), MetadataValue::Str("Second".to_string())),
    ];
    let state = MprisMetadataParser::parse_metadata_map(&metadata, "Playing", 0);
    assert_eq!(state.title, "First");
}
