use randpaper::wallpaper::{
    is_supported_image, pick_random_wallpaper, WallpaperCache, WallpaperError,
};

#[test]
fn extension_filter_is_case_insensitive() {
    assert!(is_supported_image("/w/a.png", true));
    assert!(is_supported_image("/w/a.PNG", true));
    assert!(is_supported_image("/w/a.JpEg", true));
    assert!(is_supported_image("/w/a.jpg", true));
    assert!(is_supported_image("/w/a.bmp", true));
    assert!(is_supported_image("relative.jpeg", true));
}

#[test]
fn extension_filter_rejects_other_files() {
    assert!(!is_supported_image("/w/a.gif", true));
    assert!(!is_supported_image("/w/a.png.bak", true));
    assert!(!is_supported_image("/w/noext", true));
    assert!(!is_supported_image("/w/.png", true));
    assert!(!is_supported_image("/w.png/config", true));
    assert!(!is_supported_image("", true));
}

#[test]
fn webp_is_cache_only() {
    assert!(is_supported_image("/w/a.webp", true));
    assert!(!is_supported_image("/w/a.webp", false));
}

#[test]
fn cache_keeps_supported_files_and_rejects_empty_scans() {
    let entries = vec![
        "/w/a.png".to_string(),
        "/w/notes.txt".to_string(),
        "/w/b.webp".to_string(),
    ];
    let cache = WallpaperCache::new(entries).unwrap();
    assert_eq!(cache.len(), 2);

    let none = WallpaperCache::new(vec!["/w/a.txt".to_string()]);
    assert!(matches!(none, Err(WallpaperError::NoImages)));
    assert!(matches!(
        WallpaperCache::new(Vec::new()),
        Err(WallpaperError::NoImages)
    ));
}

#[test]
fn pick_random_returns_a_cached_path() {
    let entries = vec![
        "/w/a.png".to_string(),
        "/w/b.jpg".to_string(),
        "/w/c.bmp".to_string(),
    ];
    let cache = WallpaperCache::new(entries.clone()).unwrap();
    for _ in 0..32 {
        let picked = cache.pick_random();
        assert!(entries.contains(&picked));
    }
}

#[test]
fn pick_from_singleton_returns_that_image() {
    let cache = WallpaperCache::new(vec!["/w/only.png".to_string()]).unwrap();
    assert_eq!(cache.pick_random(), "/w/only.png");
}

#[test]
fn pick_random_wallpaper_filters_and_errors_like_the_cache() {
    let entries = vec!["/w/a.webp".to_string(), "/w/b.txt".to_string()];
    assert!(matches!(
        pick_random_wallpaper(&entries),
        Err(WallpaperError::NoImages)
    ));

    let entries = vec!["/w/a.webp".to_string(), "/w/b.png".to_string()];
    assert_eq!(pick_random_wallpaper(&entries).unwrap(), "/w/b.png");
}
