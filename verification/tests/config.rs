use randpaper::config::{BackendType, Cli, Config, RendererType};

#[test]
fn defaults_match_the_baseline_record() {
    let c = Config::default();
    assert_eq!(c.wallpaper_dir, ".");
    assert!(c.time.is_none());
    assert_eq!(c.backend, BackendType::Sway);
    assert_eq!(c.renderer, RendererType::Swaybg);
    assert!(c.outputs.is_empty());
    assert_eq!(c.transition_type, "simple");
    assert_eq!(c.transition_step, 90);
    assert_eq!(c.transition_fps, 30);
}

fn empty_cli() -> Cli {
    Cli {
        wallpaper_dir: None,
        time: None,
        backend: None,
        renderer: None,
        outputs: None,
        transition_type: None,
        transition_step: None,
        transition_fps: None,
    }
}

#[test]
fn absent_cli_fields_keep_the_base_record() {
    let base = Config::default();
    let merged = base.clone().with_cli_overrides(empty_cli());
    assert_eq!(merged.wallpaper_dir, base.wallpaper_dir);
    assert_eq!(merged.time, base.time);
    assert_eq!(merged.backend, base.backend);
    assert_eq!(merged.renderer, base.renderer);
    assert_eq!(merged.outputs, base.outputs);
    assert_eq!(merged.transition_type, base.transition_type);
    assert_eq!(merged.transition_step, base.transition_step);
    assert_eq!(merged.transition_fps, base.transition_fps);
}

#[test]
fn present_cli_fields_always_win() {
    let cli = Cli {
        wallpaper_dir: Some("/walls".to_string()),
        time: Some("5m".to_string()),
        backend: Some(BackendType::Hyprland),
        renderer: Some(RendererType::Swww),
        outputs: Some(vec!["DP-1".to_string()]),
        transition_type: Some("wipe".to_string()),
        transition_step: Some(12),
        transition_fps: Some(60),
    };
    let merged = Config::default().with_cli_overrides(cli);
    assert_eq!(merged.wallpaper_dir, "/walls");
    assert_eq!(merged.time, Some("5m".to_string()));
    assert_eq!(merged.backend, BackendType::Hyprland);
    assert_eq!(merged.renderer, RendererType::Swww);
    assert_eq!(merged.outputs, vec!["DP-1".to_string()]);
    assert_eq!(merged.transition_type, "wipe");
    assert_eq!(merged.transition_step, 12);
    assert_eq!(merged.transition_fps, 60);
}
