use vstd::prelude::*;

verus! {

/// What the windowing system reports to the application. Times are
/// nanoseconds on a monotonic clock.
pub enum AppEvent {
    /// The application may now create its window.
    Resumed,
    /// The user asked to close the window.
    CloseRequested,
    /// The window wants a new frame; `now` is when the request is handled.
    RedrawRequested { now: u64 },
    /// The window now exists, with this inner size.
    WindowCreated { width: u32, height: u32 },
    /// The window's inner size changed.
    Resized { width: u32, height: u32 },
    /// Any other window event; the application ignores it.
    Other,
}

/// What the user's update callback is told about a frame.
#[derive(PartialEq, Eq, Clone, Copy, Debug)]
pub struct FrameTime {
    /// Nanoseconds since the previous frame (or since start, for the first
    /// frame).
    pub dt: u64,
    /// Nanoseconds since the application started.
    pub elapsed: u64,
    /// The window's current inner size in physical pixels, as
    /// `(width, height)`.
    pub window_size: (u32, u32),
}

/// What the application does in answer to an event.
#[derive(PartialEq, Eq, Clone, Copy, Debug)]
pub enum AppAction {
    /// Create the window and the renderer, run the user's initialiser once,
    /// and request the first redraw.
    Initialize,
    /// Leave the event loop.
    Exit,
    /// Run the update callback with this timing, render a frame cleared to
    /// black through the render callback, and request the next redraw.
    Frame(FrameTime),
    /// Hand the new size to the renderer.
    Resize { width: u32, height: u32 },
    /// Do nothing.
    Ignore,
}

/// The application's state as the decisions see it.
pub struct AppState {
    /// Whether the window, the renderer and the user's state exist.
    pub initialized: bool,
    /// When the application started.
    pub start: u64,
    /// When the last frame's update ran (or the start, before the first).
    pub last_update: u64,
    /// The window's inner size, as last reported.
    pub window_size: (u32, u32),
}

/// `a - b`, or zero when `b` is later: a clock difference that never goes
/// negative.
pub open spec fn since(a: u64, b: u64) -> u64 {
    if a >= b { (a - b) as u64 } else { 0 }
}

impl AppState {
    /// Whether the application can take the event: a second `Resumed`, or a
    /// redraw before the window exists, is a fault of the event loop.
    pub open spec fn accepts(self, ev: AppEvent) -> bool {
        match ev {
            AppEvent::Resumed => !self.initialized,
            AppEvent::RedrawRequested { .. } => self.initialized,
            AppEvent::WindowCreated { .. } => self.initialized,
            _ => true,
        }
    }

    /// The state after the event, and the action it calls for.
    pub open spec fn next(self, ev: AppEvent) -> (AppState, AppAction) {
        match ev {
            AppEvent::Resumed => (AppState { initialized: true, ..self }, AppAction::Initialize),
            AppEvent::CloseRequested => (self, AppAction::Exit),
            AppEvent::RedrawRequested { now } => (
                AppState { last_update: now, ..self },
                AppAction::Frame(
                    FrameTime {
                        dt: since(now, self.last_update),
                        elapsed: since(now, self.start),
                        window_size: self.window_size,
                    },
                ),
            ),
            AppEvent::WindowCreated { width, height } => (
                AppState { window_size: (width, height), ..self },
                AppAction::Ignore,
            ),
            AppEvent::Resized { width, height } => if self.initialized {
                (AppState { window_size: (width, height), ..self }, AppAction::Resize { width, height })
            } else {
                (self, AppAction::Ignore)
            },
            AppEvent::Other => (self, AppAction::Ignore),
        }
    }
}

/// The application runner's decisions: it is told each event and answers
/// with the action to perform.
pub struct App {
    initialized: bool,
    start: u64,
    last_update: u64,
    window_size: (u32, u32),
}

impl View for App {
    type V = AppState;

    closed spec fn view(&self) -> AppState {
        AppState {
            initialized: self.initialized,
            start: self.start,
            last_update: self.last_update,
            window_size: self.window_size,
        }
    }
}

fn elapsed_between(now: u64, earlier: u64) -> (r: u64)
    ensures
        r == since(now, earlier),
{
    if now >= earlier {
        now - earlier
    } else {
        0
    }
}

impl App {
    /// A runner started at `now`, before its window exists.
    pub fn new(now: u64) -> (r: Self)
        ensures
            r@ == (AppState { initialized: false, start: now, last_update: now, window_size: (0, 0) }),
    {
        App { initialized: false, start: now, last_update: now, window_size: (0, 0) }
    }

    /// Whether the window, the renderer and the user's state exist.
    pub fn is_initialized(&self) -> (r: bool)
        ensures
            r == self@.initialized,
    {
        self.initialized
    }

    /// The application may create its window.
    pub fn resumed(&mut self) -> (action: AppAction)
        requires
            old(self)@.accepts(AppEvent::Resumed),
        ensures
            (final(self)@, action) == old(self)@.next(AppEvent::Resumed),
    {
        self.initialized = true;
        AppAction::Initialize
    }

    /// The window has been created with this inner size.
    pub fn window_created(&mut self, width: u32, height: u32) -> (action: AppAction)
        requires
            old(self)@.accepts(AppEvent::WindowCreated { width, height }),
        ensures
            (final(self)@, action) == old(self)@.next(AppEvent::WindowCreated { width, height }),
    {
        self.window_size = (width, height);
        AppAction::Ignore
    }

    /// An event for the window (any event but `Resumed`, which comes through
    /// [`App::resumed`]).
    pub fn window_event(&mut self, event: AppEvent) -> (action: AppAction)
        requires
            !(event is Resumed),
            old(self)@.accepts(event),
        ensures
            (final(self)@, action) == old(self)@.next(event),
    {
        match event {
            AppEvent::Resumed => AppAction::Ignore,
            AppEvent::CloseRequested => AppAction::Exit,
            AppEvent::RedrawRequested { now } => {
                let dt = elapsed_between(now, self.last_update);
                let elapsed = elapsed_between(now, self.start);
                self.last_update = now;
                AppAction::Frame(FrameTime { dt, elapsed, window_size: self.window_size })
            },
            AppEvent::WindowCreated { width, height } => {
                self.window_size = (width, height);
                AppAction::Ignore
            },
            AppEvent::Resized { width, height } => {
                if self.initialized {
                    self.window_size = (width, height);
                    AppAction::Resize { width, height }
                } else {
                    AppAction::Ignore
                }
            },
            AppEvent::Other => AppAction::Ignore,
        }
    }
}

/// A close request ends the application whatever its state, and changes
/// nothing else.
pub proof fn lemma_close_always_exits(s: AppState)
    ensures
        s.next(AppEvent::CloseRequested) == (s, AppAction::Exit),
{
}

/// Once the application is initialised it stays initialised, so the
/// initialiser runs at most once: a second `Resumed` is never accepted.
pub proof fn lemma_initialized_stays(s: AppState, ev: AppEvent)
    requires
        s.initialized,
    ensures
        s.next(ev).0.initialized,
        !s.next(ev).0.accepts(AppEvent::Resumed),
{
}

/// A resize that arrives before the window exists is ignored; afterwards it
/// reaches the renderer unchanged.
pub proof fn lemma_resize_reaches_renderer(s: AppState, width: u32, height: u32)
    ensures
        s.next(AppEvent::Resized { width, height }).1 == (if s.initialized {
            AppAction::Resize { width, height }
        } else {
            AppAction::Ignore
        }),
{
}

/// The user's callbacks run only in a frame (update, then render, once each),
/// and a frame comes only once the initialiser has run: no event the runner
/// accepts before then yields one.
pub proof fn lemma_frames_only_after_init(s: AppState, ev: AppEvent)
    requires
        s.accepts(ev),
        s.next(ev).1 is Frame,
    ensures
        s.initialized,
{
}

/// A frame reports the window's size as the window last reported it: on
/// creation or on the last resize since, zero sides included.
pub proof fn lemma_frame_reports_window_size(s: AppState, width: u32, height: u32, now: u64)
    requires
        s.initialized,
    ensures
        ({
            let (s1, _) = s.next(AppEvent::Resized { width, height });
            s1.next(AppEvent::RedrawRequested { now }).1 matches AppAction::Frame(f) && f.window_size == (
            width,
            height)
        }),
        ({
            let (s1, _) = s.next(AppEvent::WindowCreated { width, height });
            s1.next(AppEvent::RedrawRequested { now }).1 matches AppAction::Frame(f) && f.window_size == (
            width,
            height)
        }),
{
}

/// The first frame's step and its total time are the same: both count from
/// the start.
pub proof fn lemma_first_frame(start: u64, now: u64)
    ensures
        ({
            let s = AppState { initialized: true, start, last_update: start, window_size: (0, 0) };
            s.next(AppEvent::RedrawRequested { now }).1 == AppAction::Frame(
                FrameTime { dt: since(now, start), elapsed: since(now, start), window_size: (0, 0) },
            )
        }),
{
}

/// On a monotonic clock the frame steps add up: each frame's elapsed time is
/// the previous frame's elapsed time plus its own step.
pub proof fn lemma_elapsed_accumulates(s: AppState, now1: u64, now2: u64)
    requires
        s.start <= s.last_update <= now1 <= now2,
    ensures
        ({
            let (s1, a1) = s.next(AppEvent::RedrawRequested { now: now1 });
            let (s2, a2) = s1.next(AppEvent::RedrawRequested { now: now2 });
            &&& a1 matches AppAction::Frame(f1)
            &&& a2 matches AppAction::Frame(f2)
            &&& f2.elapsed == f1.elapsed + f2.dt
            &&& s2.last_update == now2
        }),
{
}

/// The state and the actions after a run of events, one action per event.
pub open spec fn run_events(s: AppState, events: Seq<AppEvent>) -> (AppState, Seq<AppAction>)
    decreases events.len(),
{
    if events.len() == 0 {
        (s, Seq::empty())
    } else {
        let (t, actions) = run_events(s, events.drop_last());
        let (u, a) = t.next(events.last());
        (u, actions.push(a))
    }
}

/// Whether the runner accepts every event of the run, each in the state the
/// ones before it left.
pub open spec fn accepts_all(s: AppState, events: Seq<AppEvent>) -> bool
    decreases events.len(),
{
    if events.len() == 0 {
        true
    } else {
        accepts_all(s, events.drop_last()) && run_events(s, events.drop_last()).0.accepts(events.last())
    }
}

/// Over any run of events the runner accepts, from before the window
/// exists: the initialiser runs at most once; every frame (an update and a
/// render) comes after it; and the runner is initialised exactly when it has
/// run.
pub proof fn lemma_whole_run(s: AppState, events: Seq<AppEvent>)
    requires
        !s.initialized,
        accepts_all(s, events),
    ensures
        ({
            let (t, actions) = run_events(s, events);
            &&& actions.len() == events.len()
            &&& forall|i: int, j: int|
                0 <= i < j < actions.len() ==> !(#[trigger] actions[i] is Initialize && #[trigger] actions[j] is Initialize)
            &&& forall|i: int|
                0 <= i < actions.len() && (#[trigger] actions[i] is Frame) ==> exists|j: int|
                    0 <= j < i && #[trigger] actions[j] is Initialize
            &&& t.initialized <==> exists|j: int| 0 <= j < actions.len() && #[trigger] actions[j] is Initialize
        }),
    decreases events.len(),
{
    if events.len() > 0 {
        let prefix = events.drop_last();
        lemma_whole_run(s, prefix);
        let (t, acts) = run_events(s, prefix);
        let (u, a) = t.next(events.last());
        let all = acts.push(a);
        assert(run_events(s, events) == (u, all));
        assert forall|i: int, j: int|
            0 <= i < j < all.len() implies !(#[trigger] all[i] is Initialize && #[trigger] all[j] is Initialize) by {
            assert(all[i] == acts[i]);
            if j < acts.len() {
                assert(all[j] == acts[j]);
            }
        }
        assert forall|i: int| 0 <= i < all.len() && (#[trigger] all[i] is Frame) implies exists|j: int|
            0 <= j < i && #[trigger] all[j] is Initialize by {
            if i == all.len() - 1 {
                let j = choose|j: int| 0 <= j < acts.len() && #[trigger] acts[j] is Initialize;
                assert(all[j] == acts[j]);
            } else {
                assert(all[i] == acts[i]);
                let j = choose|j: int| 0 <= j < i && #[trigger] acts[j] is Initialize;
                assert(all[j] == acts[j]);
            }
        }
        if u.initialized {
            if t.initialized {
                let j = choose|j: int| 0 <= j < acts.len() && #[trigger] acts[j] is Initialize;
                assert(all[j] == acts[j]);
            } else {
                assert(all[all.len() - 1] is Initialize);
            }
        } else {
            assert forall|j: int| 0 <= j < all.len() implies !(#[trigger] all[j] is Initialize) by {
                if j < acts.len() {
                    assert(all[j] == acts[j]);
                }
            }
        }
    }
}

/// The frame clock moves only on a redraw. Any other event leaves the start
/// and the time of the last update alone, and an event the application
/// ignores (`Other`) changes nothing at all. A redraw at `now` (on a clock
/// that has not gone back) reports the time since the last update and since
/// the start, then records `now` as the last update; so each frame's `dt` is
/// the time since the previous frame's update, whatever events came between.
pub proof fn lemma_clock_moves_only_on_redraw(s: AppState, ev: AppEvent)
    ensures
        !(ev is RedrawRequested) ==> s.next(ev).0.last_update == s.last_update && s.next(ev).0.start == s.start,
        ev is Other ==> s.next(ev) == (s, AppAction::Ignore),
        ev is CloseRequested ==> s.next(ev).0 == s,
        ev matches AppEvent::RedrawRequested { now } ==> {
            &&& s.next(ev).0.last_update == now
            &&& s.next(ev).0.start == s.start
            &&& s.next(ev).1 matches AppAction::Frame(f) && {
                &&& (now >= s.last_update ==> f.dt == now - s.last_update)
                &&& (now < s.last_update ==> f.dt == 0)
                &&& (now >= s.start ==> f.elapsed == now - s.start)
                &&& (now < s.start ==> f.elapsed == 0)
                &&& f.window_size == s.window_size
            }
        },
{
}

/// A frame's step is the time between two redraws, however many other
/// (non-redraw) events come between them.
pub proof fn lemma_dt_spans_other_events(s: AppState, now1: u64, others: Seq<AppEvent>, now2: u64)
    requires
        forall|i: int| 0 <= i < others.len() ==> !(#[trigger] others[i] is RedrawRequested),
        now1 <= now2,
    ensures
        ({
            let (s1, _) = s.next(AppEvent::RedrawRequested { now: now1 });
            let (s2, _) = run_events(s1, others);
            s2.next(AppEvent::RedrawRequested { now: now2 }).1 matches AppAction::Frame(f) && f.dt == now2 - now1
        }),
{
    let (s1, _) = s.next(AppEvent::RedrawRequested { now: now1 });
    lemma_other_events_keep_clock(s1, others);
}

/// Events that are not redraws leave the time of the last update as it was.
pub proof fn lemma_other_events_keep_clock(s: AppState, others: Seq<AppEvent>)
    requires
        forall|i: int| 0 <= i < others.len() ==> !(#[trigger] others[i] is RedrawRequested),
    ensures
        run_events(s, others).0.last_update == s.last_update,
        run_events(s, others).0.start == s.start,
    decreases others.len(),
{
    if others.len() > 0 {
        let prefix = others.drop_last();
        assert forall|i: int| 0 <= i < prefix.len() implies !(#[trigger] prefix[i] is RedrawRequested) by {
            assert(prefix[i] == others[i]);
        }
        lemma_other_events_keep_clock(s, prefix);
        assert(!(others[others.len() - 1] is RedrawRequested));
        lemma_clock_moves_only_on_redraw(run_events(s, prefix).0, others.last());
    }
}

} // verus!
