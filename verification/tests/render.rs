use randpaper::config::{Config, RendererType};
use randpaper::render::{
    build_swaybg_args, build_swww_command, detect_awww_binary, detect_swww_binary, DaemonApply,
    ProcAction, Renderer,
};
use randpaper::text::u8_to_string;

fn base_config() -> Config {
    Config::default()
}

#[test]
fn swaybg_args_pair_each_output_with_its_path() {
    let monitors = vec!["eDP-1".to_string(), "DP-1".to_string()];
    let paths = vec![
        Some("/w/a.png".to_string()),
        Some("/w/b.jpg".to_string()),
    ];
    let args = build_swaybg_args(&monitors, &paths, "fill");
    assert_eq!(
        args,
        vec![
            "-o", "eDP-1", "-m", "fill", "-i", "/w/a.png", "-o", "DP-1", "-m", "fill", "-i",
            "/w/b.jpg",
        ]
        .into_iter()
        .map(|s| s.to_string())
        .collect::<Vec<String>>()
    );
}

#[test]
fn swaybg_args_skip_unresolved_paths() {
    let monitors = vec!["eDP-1".to_string(), "DP-1".to_string()];
    let paths = vec![None, Some("/w/b.png".to_string())];
    let args = build_swaybg_args(&monitors, &paths, "fill");
    assert_eq!(
        args,
        vec!["-o", "DP-1", "-m", "fill", "-i", "/w/b.png"]
            .into_iter()
            .map(|s| s.to_string())
            .collect::<Vec<String>>()
    );
    let none_at_all = build_swaybg_args(&monitors, &vec![None, None], "fill");
    assert!(none_at_all.is_empty());
}

/// A fake process spawner: executes replacement plans and records, in
/// order, every call it performs.
struct FakeSpawner {
    next_handle: u64,
    trace: Vec<String>,
}

impl FakeSpawner {
    fn execute(&mut self, renderer: &mut Renderer, actions: Vec<ProcAction>, spawn: bool) {
        for act in actions {
            match act {
                ProcAction::Terminate(h) => self.trace.push(format!("terminate {h}")),
                ProcAction::Reap(h) => self.trace.push(format!("reap {h}")),
                ProcAction::Spawn => {
                    let h = self.next_handle;
                    self.next_handle += 1;
                    self.trace.push(format!("spawn {h}"));
                    if spawn {
                        renderer.confirm_spawn(h);
                    }
                }
            }
        }
    }
}

#[test]
fn safe_replacement_reaps_before_second_spawn() {
    let mut renderer = Renderer::new(RendererType::Swaybg, None);
    let mut spawner = FakeSpawner {
        next_handle: 1,
        trace: Vec::new(),
    };
    assert_eq!(renderer.live(), None);

    let first = renderer.begin_swaybg_apply(true);
    assert_eq!(renderer.live(), None);
    spawner.execute(&mut renderer, first, true);
    assert_eq!(renderer.live(), Some(1));

    let second = renderer.begin_swaybg_apply(true);
    assert_eq!(renderer.live(), None);
    spawner.execute(&mut renderer, second, true);
    assert_eq!(renderer.live(), Some(2));

    assert_eq!(
        spawner.trace,
        vec!["spawn 1", "terminate 1", "reap 1", "spawn 2"]
            .into_iter()
            .map(|s| s.to_string())
            .collect::<Vec<String>>()
    );
    let reap_pos = spawner.trace.iter().position(|t| t == "reap 1").unwrap();
    let second_spawn_pos = spawner.trace.iter().position(|t| t == "spawn 2").unwrap();
    assert!(reap_pos < second_spawn_pos);
}

#[test]
fn empty_argument_list_tears_down_without_spawning() {
    let mut renderer = Renderer::new(RendererType::Swaybg, None);
    let first = renderer.begin_swaybg_apply(true);
    assert_eq!(first, vec![ProcAction::Spawn]);
    renderer.confirm_spawn(7);

    let second = renderer.begin_swaybg_apply(false);
    assert_eq!(
        second,
        vec![ProcAction::Terminate(7), ProcAction::Reap(7)]
    );
    assert_eq!(renderer.live(), None);
}

#[test]
fn swww_command_carries_transition_parameters_verbatim() {
    let mut config = base_config();
    config.transition_type = "wipe".to_string();
    config.transition_step = 90;
    config.transition_fps = 30;
    let args = build_swww_command(
        &"/w/x.png".to_string(),
        &"HDMI-A-1".to_string(),
        &config,
    );
    assert_eq!(
        args,
        vec![
            "img",
            "/w/x.png",
            "-o",
            "HDMI-A-1",
            "--transition-type",
            "wipe",
            "--transition-step",
            "90",
            "--transition-fps",
            "30",
        ]
        .into_iter()
        .map(|s| s.to_string())
        .collect::<Vec<String>>()
    );
}

#[test]
fn daemon_apply_aborts_remaining_outputs_on_first_failure() {
    let outputs = vec!["A".to_string(), "B".to_string(), "C".to_string()];
    let images = vec![
        "/w/1.png".to_string(),
        "/w/2.png".to_string(),
        "/w/3.png".to_string(),
    ];
    let config = base_config();
    let mut cycle = DaemonApply::new(&outputs, &images, &config);

    let first = cycle.next_command().unwrap();
    assert_eq!(first[1], "/w/1.png");
    assert_eq!(first[3], "A");
    cycle.report(true);

    let second = cycle.next_command().unwrap();
    assert_eq!(second[3], "B");
    cycle.report(false);

    assert!(cycle.next_command().is_none());
    assert!(cycle.outcome().is_err());
}

#[test]
fn daemon_apply_runs_every_output_on_success() {
    let outputs = vec!["A".to_string(), "B".to_string()];
    let images = vec!["/w/1.png".to_string(), "/w/2.png".to_string()];
    let config = base_config();
    let mut cycle = DaemonApply::new(&outputs, &images, &config);
    let mut issued = 0;
    while let Some(_cmd) = cycle.next_command() {
        issued += 1;
        cycle.report(true);
    }
    assert_eq!(issued, 2);
    assert!(cycle.outcome().is_ok());
}

#[test]
fn binary_detection_prefers_first_present_candidate() {
    assert_eq!(detect_swww_binary(true, true), ("swww".to_string(), false));
    assert_eq!(detect_swww_binary(false, true), ("awww".to_string(), false));
    assert_eq!(detect_swww_binary(true, false), ("swww".to_string(), false));
    assert_eq!(detect_swww_binary(false, false), ("swww".to_string(), true));

    assert_eq!(detect_awww_binary(true, true), ("awww".to_string(), false));
    assert_eq!(detect_awww_binary(false, true), ("swww".to_string(), false));
    assert_eq!(detect_awww_binary(false, false), ("awww".to_string(), true));
}

#[test]
fn decimal_rendering_is_exact() {
    assert_eq!(u8_to_string(0), "0");
    assert_eq!(u8_to_string(7), "7");
    assert_eq!(u8_to_string(10), "10");
    assert_eq!(u8_to_string(90), "90");
    assert_eq!(u8_to_string(100), "100");
    assert_eq!(u8_to_string(255), "255");
}
