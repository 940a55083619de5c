use randpaper::session::{
    lock_file_name, sanitize_component, session_key, sway_sock_basename, truncate_ascii,
};

#[test]
fn sanitize_keeps_friendly_characters() {
    assert_eq!(sanitize_component("abc.XYZ-09_q"), "abc.XYZ-09_q");
    assert_eq!(sanitize_component("a b/c:d"), "a_b_c_d");
    assert_eq!(sanitize_component(""), "");
    assert_eq!(sanitize_component("wayland-1"), "wayland-1");
    assert_eq!(sanitize_component("é!"), "__");
}

#[test]
fn truncate_caps_length_and_keeps_short_keys() {
    assert_eq!(truncate_ascii("short".to_string(), 80), "short");
    let long = "x".repeat(100);
    assert_eq!(truncate_ascii(long, 80), "x".repeat(80));
    assert_eq!(truncate_ascii("abc".to_string(), 3), "abc");
    assert_eq!(truncate_ascii("abcd".to_string(), 3), "abc");
}

#[test]
fn sock_basename_takes_final_component() {
    assert_eq!(
        sway_sock_basename("/run/user/1000/sway-ipc.1000.42.sock"),
        "sway-ipc.1000.42.sock"
    );
    assert_eq!(sway_sock_basename("plain"), "plain");
    assert_eq!(sway_sock_basename(""), "sway");
    assert_eq!(sway_sock_basename("/a/b/"), "sway");
    assert_eq!(sway_sock_basename("/a/.."), "sway");
}

#[test]
fn session_key_prefers_hyprland_then_sway_then_wayland() {
    assert_eq!(
        session_key(Some("sig/1".to_string()), Some("/s/sock".to_string()), None),
        "hypr-sig_1"
    );
    assert_eq!(
        session_key(None, Some("/run/user/1000/sway-ipc.sock".to_string()), None),
        "sway-sway-ipc.sock"
    );
    assert_eq!(
        session_key(None, None, Some("wayland-1".to_string())),
        "wayland-wayland-1"
    );
    assert_eq!(session_key(None, None, None), "unknown");
}

#[test]
fn session_key_is_capped_at_eighty_characters() {
    let sig = "s".repeat(200);
    let key = session_key(Some(sig), None, None);
    assert_eq!(key.len(), 80);
    assert!(key.starts_with("hypr-"));
}

#[test]
fn lock_file_name_wraps_the_key() {
    assert_eq!(lock_file_name("hypr-abc"), "randpaper-hypr-abc.lock");
}
