use panoptic::cache::AssetCache;

#[test]
fn test_asset_cache_basic() {
    let mut cache = AssetCache::new();
    let url1 = "https://example.com/image1.png";
    let url2 = "https://example.com/image2.png";

    let path1 = cache.get_or_fetch(url1);
    let path1_again = cache.get_or_fetch(url1);
    let path2 = cache.get_or_fetch(url2);

    assert!(path1.starts_with("/tmp/cached_"));
    assert!(path1.ends_with(".png"));
    assert_eq!(path1, path1_again);
    assert_ne!(path1, path2);
    assert!(path2.starts_with("/tmp/cached_"));
}

#[test]
fn cached_path_has_a_uuid() {
    let mut cache = AssetCache::new();
    let p = cache.get_or_fetch("x");
    let id = &p["/tmp/cached_".len()..p.len() - ".png".len()];
    assert_eq!(id.len(), 36);
    for (i, c) in id.chars().enumerate() {
        if i == 8 || i == 13 || i == 18 || i == 23 {
            assert_eq!(c, '-');
        } else {
            assert!(c.is_ascii_hexdigit() && !c.is_ascii_uppercase());
        }
    }
}

#[test]
fn cache_with_a_given_id() {
    let mut cache = AssetCache::new();
    let id = "0123abcd-0000-4000-8000-00000000beef";
    let p = cache.get_or_insert_id("https://a/x.png", id);
    assert_eq!(p, format!("/tmp/cached_{}.png", id));
    let again = cache.get_or_insert_id("https://a/x.png", "ffffffff-0000-4000-8000-000000000000");
    assert_eq!(again, p);
    assert_eq!(cache.get_or_fetch("https://a/x.png"), p);
}
