use randpaper::config::{Config, RendererType};
use randpaper::monitors::{Backend, DiscoveryError, DiscoveryPlan, SwayBackend};
use randpaper::render::{build_swaybg_args, ProcAction, Renderer};
use randpaper::scheduler::{Phase, SchedAction, SchedEvent, Scheduler, RETRY_DELAY_MS};

#[test]
fn retry_three_attempts_before_applying() {
    let mut sched = Scheduler::new(Some(60_000));
    let answers: Vec<Result<Vec<String>, DiscoveryError>> = vec![
        Err(DiscoveryError::ConnectTimeout),
        Err(DiscoveryError::QueryTimeout),
        Ok(vec!["eDP-1".to_string()]),
    ];
    let mut attempts = 0;
    let mut sleeps = 0;
    let mut applied: Option<Vec<String>> = None;
    for answer in answers {
        attempts += 1;
        assert_eq!(sched.phase(), Phase::Discovering);
        match sched.step(SchedEvent::Discovered(answer)) {
            Some(SchedAction::Sleep(ms)) => {
                assert_eq!(ms, RETRY_DELAY_MS);
                sleeps += 1;
                assert_eq!(sched.phase(), Phase::Backoff);
                match sched.step(SchedEvent::DelayElapsed) {
                    Some(SchedAction::Discover) => {}
                    other => panic!("expected a new discovery, got {:?}", other),
                }
            }
            Some(SchedAction::Apply(outs)) => {
                applied = Some(outs);
            }
            other => panic!("unexpected action {:?}", other),
        }
    }
    assert_eq!(attempts, 3);
    assert_eq!(sleeps, 2);
    assert_eq!(applied, Some(vec!["eDP-1".to_string()]));
    assert_eq!(sched.phase(), Phase::Applying);
}

#[test]
fn skip_during_waiting_reenters_discovery_immediately() {
    let mut sched = Scheduler::new(Some(3_600_000));
    match sched.step(SchedEvent::Discovered(Ok(vec!["A".to_string()]))) {
        Some(SchedAction::Apply(_)) => {}
        other => panic!("unexpected action {:?}", other),
    }
    match sched.step(SchedEvent::Applied(Ok(()))) {
        Some(SchedAction::Wait(ms)) => assert_eq!(ms, 3_600_000),
        other => panic!("unexpected action {:?}", other),
    }
    assert_eq!(sched.phase(), Phase::Waiting);
    match sched.step(SchedEvent::Skip) {
        Some(SchedAction::Discover) => {}
        other => panic!("unexpected action {:?}", other),
    }
    assert_eq!(sched.phase(), Phase::Discovering);
}

#[test]
fn skip_outside_waiting_has_no_observable_effect() {
    let mut sched = Scheduler::new(Some(1_000));
    assert_eq!(sched.phase(), Phase::Discovering);
    assert!(sched.step(SchedEvent::Skip).is_none());
    assert_eq!(sched.phase(), Phase::Discovering);

    sched
        .step(SchedEvent::Discovered(Err(DiscoveryError::SpawnFailed)))
        .unwrap();
    assert_eq!(sched.phase(), Phase::Backoff);
    assert!(sched.step(SchedEvent::Skip).is_none());
    assert_eq!(sched.phase(), Phase::Backoff);

    sched.step(SchedEvent::DelayElapsed).unwrap();
    sched
        .step(SchedEvent::Discovered(Ok(vec!["A".to_string()])))
        .unwrap();
    assert_eq!(sched.phase(), Phase::Applying);
    assert!(sched.step(SchedEvent::Skip).is_none());
    assert_eq!(sched.phase(), Phase::Applying);
}

#[test]
fn period_elapsing_reenters_discovery() {
    let mut sched = Scheduler::new(Some(500));
    sched
        .step(SchedEvent::Discovered(Ok(vec!["A".to_string()])))
        .unwrap();
    sched.step(SchedEvent::Applied(Ok(()))).unwrap();
    assert_eq!(sched.phase(), Phase::Waiting);
    match sched.step(SchedEvent::PeriodElapsed) {
        Some(SchedAction::Discover) => {}
        other => panic!("unexpected action {:?}", other),
    }
    assert_eq!(sched.phase(), Phase::Discovering);
}

#[test]
fn apply_failure_is_fatal() {
    let mut sched = Scheduler::new(Some(500));
    sched
        .step(SchedEvent::Discovered(Ok(vec!["A".to_string()])))
        .unwrap();
    match sched.step(SchedEvent::Applied(Err(
        randpaper::render::ApplyError::CommandFailed,
    ))) {
        Some(SchedAction::Stop(ok)) => assert!(!ok),
        other => panic!("unexpected action {:?}", other),
    }
    assert_eq!(sched.phase(), Phase::Finished);
}

#[test]
fn oneshot_cycle_applies_once_and_exits_cleanly() {
    // Configuration: no period (one-shot), override outputs A and B, the
    // persistent-process renderer, one eligible image X.png.
    let mut config = Config::default();
    config.outputs = vec!["A".to_string(), "B".to_string()];
    config.renderer = RendererType::Swaybg;
    config.time = None;

    let backend = SwayBackend {
        outputs_override: config.outputs.clone(),
    };
    assert_eq!(backend.plan(), DiscoveryPlan::UseOverride);
    let outputs = backend.override_list();

    let mut sched = Scheduler::new(None);
    let mut renderer = Renderer::new(config.renderer, None);
    let mut spawned: Vec<Vec<String>> = Vec::new();

    let action = sched.step(SchedEvent::Discovered(Ok(outputs)));
    let outs = match action {
        Some(SchedAction::Apply(outs)) => outs,
        other => panic!("unexpected action {:?}", other),
    };
    assert_eq!(outs, vec!["A".to_string(), "B".to_string()]);

    // One canonicalized selection per output, from the only image.
    let canonical = "/wallpapers/X.png".to_string();
    let paths: Vec<Option<String>> = outs.iter().map(|_| Some(canonical.clone())).collect();
    let args = build_swaybg_args(&outs, &paths, "fill");
    assert_eq!(
        args,
        vec![
            "-o",
            "A",
            "-m",
            "fill",
            "-i",
            "/wallpapers/X.png",
            "-o",
            "B",
            "-m",
            "fill",
            "-i",
            "/wallpapers/X.png",
        ]
        .into_iter()
        .map(|s| s.to_string())
        .collect::<Vec<String>>()
    );

    let plan = renderer.begin_swaybg_apply(!args.is_empty());
    assert_eq!(plan, vec![ProcAction::Spawn]);
    spawned.push(args);
    renderer.confirm_spawn(1);

    // Exactly one apply invocation, then a clean stop: exit status zero.
    match sched.step(SchedEvent::Applied(Ok(()))) {
        Some(SchedAction::Stop(ok)) => assert!(ok),
        other => panic!("unexpected action {:?}", other),
    }
    assert_eq!(sched.phase(), Phase::Finished);
    assert_eq!(spawned.len(), 1);
    assert!(sched.step(SchedEvent::PeriodElapsed).is_none());
}
