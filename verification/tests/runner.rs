use game_engine::runner::{App, AppAction, AppEvent, FrameTime};

#[test]
fn resumed_initializes_once() {
    let mut app = App::new(1_000);
    assert!(!app.is_initialized());
    assert_eq!(app.resumed(), AppAction::Initialize);
    assert!(app.is_initialized());
}

#[test]
fn frames_report_step_and_total_time() {
    let mut app = App::new(1_000);
    app.resumed();
    assert_eq!(
        app.window_event(AppEvent::RedrawRequested { now: 1_500 }),
        AppAction::Frame(FrameTime { dt: 500, elapsed: 500, window_size: (0, 0) })
    );
    assert_eq!(
        app.window_event(AppEvent::RedrawRequested { now: 2_500 }),
        AppAction::Frame(FrameTime { dt: 1_000, elapsed: 1_500, window_size: (0, 0) })
    );
    assert_eq!(
        app.window_event(AppEvent::RedrawRequested { now: 2_600 }),
        AppAction::Frame(FrameTime { dt: 100, elapsed: 1_600, window_size: (0, 0) })
    );
}

#[test]
fn clock_going_back_gives_zero() {
    let mut app = App::new(1_000);
    app.resumed();
    app.window_event(AppEvent::RedrawRequested { now: 2_000 });
    assert_eq!(
        app.window_event(AppEvent::RedrawRequested { now: 900 }),
        AppAction::Frame(FrameTime { dt: 0, elapsed: 0, window_size: (0, 0) })
    );
}

#[test]
fn close_exits_in_any_state() {
    let mut app = App::new(0);
    assert_eq!(app.window_event(AppEvent::CloseRequested), AppAction::Exit);
    app.resumed();
    assert_eq!(app.window_event(AppEvent::CloseRequested), AppAction::Exit);
}

#[test]
fn resize_before_window_is_ignored() {
    let mut app = App::new(0);
    assert_eq!(app.window_event(AppEvent::Resized { width: 10, height: 20 }), AppAction::Ignore);
    app.resumed();
    assert_eq!(
        app.window_event(AppEvent::Resized { width: 10, height: 20 }),
        AppAction::Resize { width: 10, height: 20 }
    );
}

#[test]
fn other_events_are_ignored() {
    let mut app = App::new(0);
    assert_eq!(app.window_event(AppEvent::Other), AppAction::Ignore);
    app.resumed();
    assert_eq!(app.window_event(AppEvent::Other), AppAction::Ignore);
}

#[test]
fn frames_report_current_window_size() {
    let mut app = App::new(0);
    app.resumed();
    assert_eq!(app.window_created(800, 600), AppAction::Ignore);
    assert_eq!(
        app.window_event(AppEvent::RedrawRequested { now: 10 }),
        AppAction::Frame(FrameTime { dt: 10, elapsed: 10, window_size: (800, 600) })
    );
    app.window_event(AppEvent::Resized { width: 1024, height: 0 });
    assert_eq!(
        app.window_event(AppEvent::RedrawRequested { now: 30 }),
        AppAction::Frame(FrameTime { dt: 20, elapsed: 30, window_size: (1024, 0) })
    );
}
