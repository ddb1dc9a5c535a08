use goldenrod::frame::{
    classify, AcquireOutcome, Action, App, AppState, SurfaceError, WindowEvent,
};
use goldenrod::render::Command;
use goldenrod::schedule::{runner_events, EventKind, Phase, ScheduleRunner, Schedules, System};

#[test]
fn acquire_failures_are_classified() {
    assert_eq!(classify(Ok(())), AcquireOutcome::Draw);
    assert_eq!(classify(Err(SurfaceError::Lost)), AcquireOutcome::Reconfigure);
    assert_eq!(classify(Err(SurfaceError::Outdated)), AcquireOutcome::Reconfigure);
    assert_eq!(classify(Err(SurfaceError::Other)), AcquireOutcome::Reconfigure);
    assert_eq!(classify(Err(SurfaceError::Timeout)), AcquireOutcome::Skip);
    assert_eq!(classify(Err(SurfaceError::OutOfMemory)), AcquireOutcome::Exit);
}

#[test]
fn resumed_starts_up_once() {
    let mut app = App::new();
    assert!(app.is_uninit());
    assert_eq!(
        app.resumed(),
        vec![
            Action::CreateWindow,
            Action::RunSchedule(Phase::OnInitEventSetup),
            Action::RunSchedule(Phase::OnInitRenderSetup),
            Action::RunSchedule(Phase::OnInitAppSetup),
        ]
    );
    assert_eq!(app.state(), AppState::Idle);
    assert!(!app.is_uninit());
    assert!(app.resumed().is_empty());
}

#[test]
fn events_before_startup_and_of_other_windows_are_ignored() {
    let mut app = App::new();
    assert!(app.window_event(WindowEvent::RedrawRequested, true).is_empty());
    assert!(app.device_event().is_empty());
    assert!(app.is_uninit());
    app.resumed();
    assert!(app.window_event(WindowEvent::CloseRequested, false).is_empty());
    assert_eq!(app.state(), AppState::Idle);
    assert_eq!(app.device_event(), vec![Action::SendMouseMotion]);
}

#[test]
fn input_events_are_queued() {
    let mut app = App::new();
    app.resumed();
    assert_eq!(
        app.window_event(WindowEvent::KeyboardInput, true),
        vec![Action::ForwardToUi, Action::SendKeyEvent]
    );
    assert_eq!(
        app.window_event(WindowEvent::MouseInput, true),
        vec![Action::ForwardToUi, Action::SendMouseInput]
    );
    assert_eq!(app.window_event(WindowEvent::MouseWheel, true), vec![Action::ForwardToUi]);
    assert_eq!(app.window_event(WindowEvent::Other, true), vec![Action::ForwardToUi]);
    assert_eq!(app.state(), AppState::Idle);
}

#[test]
fn window_resize_goes_to_the_surface_and_the_passes() {
    let mut app = App::new();
    app.resumed();
    assert_eq!(
        app.window_event(WindowEvent::Resized { width: 1920, height: 1080 }, true),
        vec![
            Action::ForwardToUi,
            Action::ResizeSurface { width: 1920, height: 1080 },
            Action::RunSchedule(Phase::OnResize),
        ]
    );
}

#[test]
fn a_frame_runs_acquire_record_submit_present() {
    let mut app = App::new();
    app.resumed();
    assert_eq!(
        app.window_event(WindowEvent::RedrawRequested, true),
        vec![Action::ForwardToUi, Action::RequestRedraw, Action::AcquireImage]
    );
    assert_eq!(app.state(), AppState::AwaitingImage);
    let (frame, actions) = app.acquired(Ok(()));
    assert_eq!(
        actions,
        vec![
            Action::RunSchedule(Phase::OnRedrawPreFrame),
            Action::BeginUi,
            Action::RunSchedule(Phase::OnRedrawRender),
            Action::CompositeUi,
            Action::PrePresentNotify,
        ]
    );
    assert_eq!(app.state(), AppState::Recording);
    let mut frame = frame.unwrap();
    assert!(frame.encoder.commands().is_empty());
    frame.encoder.record(Command::BeginComputePass);
    frame.encoder.record(Command::EndPass);
    let end = app.finish_frame(frame);
    assert_eq!(end.commands, vec![Command::BeginComputePass, Command::EndPass]);
    assert_eq!(
        end.actions,
        vec![
            Action::Submit,
            Action::Present,
            Action::RunSchedule(Phase::OnRedrawPostFrame),
            Action::RunSchedule(Phase::OnRedrawEventUpdate),
        ]
    );
    assert_eq!(app.state(), AppState::Idle);
}

#[test]
fn a_menu_resize_is_taken_by_the_next_frame_once() {
    let mut app = App::new();
    app.resumed();
    app.raise_menu_resize();
    assert_eq!(
        app.window_event(WindowEvent::RedrawRequested, true),
        vec![
            Action::ForwardToUi,
            Action::RequestRedraw,
            Action::RunSchedule(Phase::OnResize),
            Action::AcquireImage,
        ]
    );
    let (frame, _) = app.acquired(Ok(()));
    app.finish_frame(frame.unwrap());
    assert_eq!(
        app.window_event(WindowEvent::RedrawRequested, true),
        vec![Action::ForwardToUi, Action::RequestRedraw, Action::AcquireImage]
    );
}

#[test]
fn a_lost_surface_skips_the_frame_and_is_reconfigured() {
    for error in [SurfaceError::Lost, SurfaceError::Outdated, SurfaceError::Other] {
        let mut app = App::new();
        app.resumed();
        app.window_event(WindowEvent::RedrawRequested, true);
        let (frame, actions) = app.acquired(Err(error));
        assert!(frame.is_none());
        assert_eq!(actions, vec![Action::ReconfigureSurface]);
        assert_eq!(app.state(), AppState::Idle);
    }
}

#[test]
fn a_timeout_skips_the_frame() {
    let mut app = App::new();
    app.resumed();
    app.window_event(WindowEvent::RedrawRequested, true);
    let (frame, actions) = app.acquired(Err(SurfaceError::Timeout));
    assert!(frame.is_none());
    assert_eq!(actions, vec![Action::WarnTimeout]);
    assert_eq!(app.state(), AppState::Idle);
}

#[test]
fn out_of_memory_ends_the_application() {
    let mut app = App::new();
    app.resumed();
    app.window_event(WindowEvent::RedrawRequested, true);
    let (frame, actions) = app.acquired(Err(SurfaceError::OutOfMemory));
    assert!(frame.is_none());
    assert_eq!(actions, vec![Action::Exit]);
    assert_eq!(app.state(), AppState::Exited);
    assert!(app.window_event(WindowEvent::RedrawRequested, true).is_empty());
    assert!(app.device_event().is_empty());
}

#[test]
fn closing_ends_the_application_in_any_state() {
    let mut app = App::new();
    app.resumed();
    app.window_event(WindowEvent::RedrawRequested, true);
    assert_eq!(
        app.window_event(WindowEvent::CloseRequested, true),
        vec![Action::ForwardToUi, Action::Exit]
    );
    assert_eq!(app.state(), AppState::Exited);
}

#[test]
fn no_second_frame_begins_while_one_is_in_flight() {
    let mut app = App::new();
    app.resumed();
    app.window_event(WindowEvent::RedrawRequested, true);
    assert_eq!(app.window_event(WindowEvent::RedrawRequested, true), vec![Action::ForwardToUi]);
    assert_eq!(app.state(), AppState::AwaitingImage);
    let (frame, _) = app.acquired(Ok(()));
    assert_eq!(app.window_event(WindowEvent::RedrawRequested, true), vec![Action::ForwardToUi]);
    assert_eq!(
        app.window_event(WindowEvent::Resized { width: 1, height: 1 }, true),
        vec![Action::ForwardToUi]
    );
    assert_eq!(app.state(), AppState::Recording);
    app.finish_frame(frame.unwrap());
}

#[test]
fn schedules_hold_the_systems_in_order() {
    let schedules = Schedules::default();
    assert_eq!(
        schedules.on_resize,
        vec![
            System::CameraOnResize,
            System::MaterialTexturesOnResize,
            System::PathtracePassOnResize,
            System::FinalPassOnResize,
        ]
    );
    assert_eq!(
        schedules.on_redraw_render,
        vec![
            System::MenuUpdate,
            System::ObjectBindingUpdate,
            System::ScreenBindingUpdate,
            System::MaterialDraw,
            System::PathtracePassUpdate,
            System::FinalPassUpdate,
        ]
    );
    assert_eq!(
        schedules.on_redraw_post_frame,
        vec![
            System::InputUpdate,
            System::TimeUpdate,
            System::ProfilerPostRender,
            System::FpsCounterUpdate,
        ]
    );
    assert_eq!(
        schedules.on_redraw_pre_frame,
        vec![
            System::HandleKeyboardInput,
            System::HandleMouseInput,
            System::InputControl,
            System::CameraUpdate,
        ]
    );
    assert_eq!(schedules.on_init_render_setup.len(), 10);
    assert_eq!(schedules.on_init_render_setup[0], System::RendererViewportInit);
    assert_eq!(schedules.on_init_render_setup[8], System::PathtracePassInit);
    assert_eq!(schedules.on_init_render_setup[9], System::FinalPassInit);
    assert_eq!(
        schedules.on_init_app_setup,
        vec![System::FpsCounterInit, System::MenuInit, System::ObjectsInit, System::CameraInit]
    );
    assert_eq!(schedules.on_init_event_setup[0], System::EventInit(EventKind::MenuResize));
    assert_eq!(schedules.on_redraw_event_update[3], System::EventUpdate(EventKind::MouseInput));
    assert_eq!(schedules.of(Phase::OnResize), &schedules.on_resize);
    assert_eq!(schedules.of(Phase::OnInitEventSetup), &schedules.on_init_event_setup);
    assert_eq!(schedules.of(Phase::OnRedrawRender), &schedules.on_redraw_render);
}

#[test]
fn runner_startup_and_update_order() {
    let runner = ScheduleRunner::default();
    let startup = runner.startup();
    assert_eq!(startup.len(), 19);
    assert_eq!(startup[0], System::FpsCounterInit);
    assert_eq!(startup[5], System::ScreenBindingInit);
    assert_eq!(startup[6], System::RenderProfilerInit);
    assert_eq!(startup[7], System::PathtracePassInit);
    assert_eq!(startup[8], System::FinalPassInit);
    assert_eq!(startup[9], System::EventInit(EventKind::WindowResize));
    assert_eq!(startup[18], System::EventInit(EventKind::TrianglePop));
    let update = runner.update();
    assert_eq!(update.len(), 20);
    assert_eq!(update[0], System::MenuUpdate);
    assert_eq!(update[5], System::InputUpdate);
    assert_eq!(update[6], System::TimeUpdate);
    assert_eq!(update[7], System::EventUpdate(EventKind::WindowResize));
    assert_eq!(update[17], System::RecompileShaders);
    assert_eq!(update[18], System::PathtracePassUpdate);
    assert_eq!(update[19], System::FinalPassUpdate);
    assert_eq!(runner_events().len(), 10);
}
