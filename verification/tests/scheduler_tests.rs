use fractal_view::camera::Camera;
use fractal_view::frame::AcquireStatus;
use fractal_view::frame::FrameAction;
use fractal_view::frame::SurfaceTracker;
use fractal_view::frame::advance_animation;
use fractal_view::frame::classify_acquire;
use fractal_view::scheduler::Scheduler;

#[test]
fn only_one_cadence_driver_starts() {
    let mut s = Scheduler::new();
    assert_eq!(s.on_zoom_input(), Some(1));
    // A second wheel event during the animation extends the running
    // cadence instead of racing a second driver against the first.
    assert_eq!(s.on_zoom_input(), None);
    assert_eq!(s.on_zoom_input(), None);
    assert!(s.animating);
    assert_eq!(s.generation, 1);
}

#[test]
fn cancellation_token_is_sent_exactly_once() {
    let mut s = Scheduler::new();
    s.on_zoom_input();
    let outcomes = [false, false, true, true, false, true];
    let mut signals = 0;
    for converged in outcomes {
        if s.on_tick(converged) {
            signals += 1;
        }
    }
    assert_eq!(signals, 1);
    assert!(!s.animating);
}

#[test]
fn stale_driver_generation_stops_polling() {
    let mut s = Scheduler::new();
    let first = s.on_zoom_input().unwrap();
    assert!(s.should_redraw(first));
    s.on_tick(true);
    assert!(!s.should_redraw(first));
    let second = s.on_zoom_input().unwrap();
    assert_eq!(second, 2);
    assert!(s.should_redraw(second));
    // The first driver missed its cancellation: its next poll stops it.
    assert!(!s.should_redraw(first));
}

#[test]
fn reconfigure_only_on_size_change() {
    let mut t = SurfaceTracker::new(800, 600);
    assert!(t.reconfigure_if_needed(1024, 768));
    // Reconfiguring twice with the same size is a no-op the second time.
    assert!(!t.reconfigure_if_needed(1024, 768));
    assert_eq!(t, SurfaceTracker { width: 1024, height: 768 });
    assert!(!t.reconfigure_if_needed(1024, 768));
}

#[test]
fn acquire_classification() {
    assert_eq!(classify_acquire(AcquireStatus::Acquired, false), FrameAction::Render);
    assert_eq!(classify_acquire(AcquireStatus::Acquired, true), FrameAction::Render);
    assert_eq!(
        classify_acquire(AcquireStatus::Outdated, false),
        FrameAction::ReconfigureAndRetry
    );
    assert_eq!(classify_acquire(AcquireStatus::Lost, false), FrameAction::ReconfigureAndRetry);
    // The transient path is walked once: a failing retry escalates.
    assert_eq!(classify_acquire(AcquireStatus::Outdated, true), FrameAction::Abort);
    assert_eq!(classify_acquire(AcquireStatus::Lost, true), FrameAction::Abort);
    assert_eq!(classify_acquire(AcquireStatus::Timeout, false), FrameAction::Abort);
    assert_eq!(classify_acquire(AcquireStatus::OutOfMemory, false), FrameAction::Abort);
}

#[test]
fn animation_run_signals_once_and_goes_idle() {
    let mut cam = Camera::new();
    let mut sched = Scheduler::new();
    cam.cursor_moved(4_000_000, 3_000_000);
    cam.set_zoom_target(true, 800, 600);
    let started = sched.on_zoom_input();
    assert!(started.is_some());
    let mut signals = 0;
    for _ in 0..200 {
        if advance_animation(&mut cam, &mut sched) {
            signals += 1;
        }
    }
    assert_eq!(signals, 1);
    assert!(!cam.zooming);
    assert!(!sched.animating);
    assert!(cam.settled());
}
