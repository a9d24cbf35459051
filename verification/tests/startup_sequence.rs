use pulsebridge::startup::{advance_startup, Cleanup, StartupEvent, StartupStage};

#[test]
fn a_clean_start_walks_every_stage_in_order() {
    let mut stage = StartupStage::EnumerateDisplays;
    let step = advance_startup(stage, &StartupEvent::DisplaysListed(2));
    assert!(step.failure.is_none());
    stage = step.next;
    let order = [
        StartupStage::CreateWindow,
        StartupStage::ConfigureWindow,
        StartupStage::PrepareSurface,
        StartupStage::SpawnAnalysis,
        StartupStage::SpawnAudio,
        StartupStage::SpawnRenderer,
    ];
    for expected in order {
        assert_eq!(stage, expected);
        stage = advance_startup(stage, &StartupEvent::StepDone).next;
    }
    assert_eq!(stage, StartupStage::AwaitFirstFrame);
    stage = advance_startup(stage, &StartupEvent::FirstFrame(false)).next;
    assert_eq!(stage, StartupStage::Reveal);
    stage = advance_startup(stage, &StartupEvent::StepDone).next;
    assert_eq!(stage, StartupStage::Running);
    assert_eq!(advance_startup(stage, &StartupEvent::StepDone).next, StartupStage::Running);
}

#[test]
fn no_display_fails_without_cleanup() {
    let step = advance_startup(StartupStage::EnumerateDisplays, &StartupEvent::DisplaysListed(0));
    assert_eq!(step.next, StartupStage::Failed);
    let failure = step.failure.unwrap();
    assert_eq!(failure.message, "No connected displays were found");
    assert_eq!(failure.code, "NO_DISPLAYS_FOUND");
    assert_eq!(failure.cleanup, Cleanup::Nothing);
}

#[test]
fn window_failures_close_the_window_and_worker_failures_roll_back() {
    let configure = advance_startup(
        StartupStage::ConfigureWindow,
        &StartupEvent::StepFailed("bad size".to_string()),
    );
    let failure = configure.failure.unwrap();
    assert_eq!(failure.message, "bad size");
    assert_eq!(failure.code, "DISPLAY_WINDOW_CONFIGURE_FAILED");
    assert_eq!(failure.cleanup, Cleanup::CloseWindow);
    let audio = advance_startup(
        StartupStage::SpawnAudio,
        &StartupEvent::StepFailed("no thread".to_string()),
    );
    let failure = audio.failure.unwrap();
    assert_eq!(failure.message, "Audio worker failed to start: no thread");
    assert_eq!(failure.cleanup, Cleanup::RollBack);
}

#[test]
fn the_first_frame_outcomes_have_their_own_messages() {
    let timed_out = advance_startup(StartupStage::AwaitFirstFrame, &StartupEvent::FirstFrameTimedOut);
    assert_eq!(
        timed_out.failure.unwrap().message,
        "Performance renderer did not produce a frame within 12 seconds"
    );
    let gone = advance_startup(StartupStage::AwaitFirstFrame, &StartupEvent::RendererDisconnected);
    assert_eq!(gone.failure.unwrap().message, "Renderer worker exited before startup completed");
    let failed = advance_startup(
        StartupStage::AwaitFirstFrame,
        &StartupEvent::RendererFailed("GPU_DEVICE_LOST: x".to_string()),
    );
    assert_eq!(failed.failure.unwrap().message, "Performance renderer failed: GPU_DEVICE_LOST: x");
    let stopped = advance_startup(StartupStage::AwaitFirstFrame, &StartupEvent::FirstFrame(true));
    assert_eq!(stopped.failure.unwrap().message, "Renderer stopped during startup");
}

#[test]
fn unexpected_events_change_nothing() {
    let step = advance_startup(StartupStage::SpawnAudio, &StartupEvent::FirstFrameTimedOut);
    assert_eq!(step.next, StartupStage::SpawnAudio);
    assert!(step.failure.is_none());
}
