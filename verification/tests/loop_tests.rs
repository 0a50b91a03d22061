use render_loop::presentation::{IterationStart, LoopCtx, SubmitOutcome, WindowEvt};
use render_loop::resources::{gen_frame_resources, requested_image_count, Dims};
use render_loop::signal::Signal;

#[test]
fn three_images_at_800_by_600() {
    let mut ctx = LoopCtx::new(Dims { width: 800, height: 600 });
    assert_eq!(ctx.begin_iteration(), IterationStart::Regenerate);
    ctx.on_regeneration(Some(3));
    assert_eq!(ctx.image_count(), Some(3));
    for i in 0..3usize {
        let fb = ctx.frame_target(i);
        assert_eq!(fb.image_index, i);
        assert_eq!(fb.width, 800);
        assert_eq!(fb.height, 600);
    }
    let vp = ctx.viewport();
    assert_eq!((vp.origin_x, vp.origin_y, vp.width, vp.height), (0, 0, 800, 600));
}

#[test]
fn zero_area_resize_is_recoverable() {
    let mut ctx = LoopCtx::new(Dims { width: 800, height: 600 });
    ctx.on_regeneration(Some(3));
    ctx.on_window_event(WindowEvt::Resized(Dims { width: 0, height: 0 }));
    assert_eq!(ctx.begin_iteration(), IterationStart::Regenerate);
    ctx.on_regeneration(None);
    assert_eq!(ctx.begin_iteration(), IterationStart::Regenerate);
    ctx.on_regeneration(None);
    assert_eq!(ctx.begin_iteration(), IterationStart::Regenerate);
    ctx.on_window_event(WindowEvt::Resized(Dims { width: 640, height: 480 }));
    ctx.on_regeneration(Some(3));
    assert_eq!(ctx.begin_iteration(), IterationStart::Acquire);
    let fb = ctx.frame_target(0);
    assert_eq!((fb.width, fb.height), (640, 480));
}

#[test]
fn out_of_date_acquire_regenerates_before_next_acquire() {
    let mut ctx = LoopCtx::new(Dims { width: 800, height: 600 });
    ctx.on_regeneration(Some(3));
    assert_eq!(ctx.begin_iteration(), IterationStart::Acquire);
    ctx.on_acquire_out_of_date();
    ctx.on_window_event(WindowEvt::Ignored);
    assert_eq!(ctx.begin_iteration(), IterationStart::Regenerate);
    ctx.on_regeneration(Some(3));
    assert_eq!(ctx.begin_iteration(), IterationStart::Acquire);
}

#[test]
fn close_request_exits_within_one_iteration() {
    let mut ctx = LoopCtx::new(Dims { width: 800, height: 600 });
    ctx.on_regeneration(Some(3));
    ctx.on_frame_outcome(SubmitOutcome::Completed(Signal::pending()));
    ctx.on_window_event(WindowEvt::CloseRequested);
    assert_eq!(ctx.begin_iteration(), IterationStart::Exit);
    ctx.on_window_event(WindowEvt::Resized(Dims { width: 10, height: 10 }));
    assert_eq!(ctx.begin_iteration(), IterationStart::Exit);
}

#[test]
fn failure_paths_substitute_ready_sentinel() {
    let mut ctx = LoopCtx::new(Dims { width: 800, height: 600 });
    ctx.on_regeneration(Some(3));
    ctx.on_frame_outcome(SubmitOutcome::Completed(Signal::pending()));
    assert!(!ctx.previous_frame_ready());
    ctx.on_frame_outcome(SubmitOutcome::SurfaceOutOfDate);
    assert!(ctx.previous_frame_ready());
    assert_eq!(ctx.begin_iteration(), IterationStart::Regenerate);
    ctx.on_regeneration(Some(3));
    ctx.on_frame_outcome(SubmitOutcome::Completed(Signal::pending()));
    assert!(!ctx.previous_frame_ready());
    ctx.on_frame_outcome(SubmitOutcome::OtherError);
    assert!(ctx.previous_frame_ready());
}

#[test]
fn resources_track_latest_resize() {
    let mut ctx = LoopCtx::new(Dims { width: 100, height: 100 });
    ctx.on_regeneration(Some(2));
    ctx.on_window_event(WindowEvt::Resized(Dims { width: 300, height: 200 }));
    ctx.on_window_event(WindowEvt::Resized(Dims { width: 500, height: 400 }));
    assert_eq!(ctx.begin_iteration(), IterationStart::Regenerate);
    ctx.on_regeneration(Some(2));
    let fb = ctx.frame_target(1);
    assert_eq!((fb.width, fb.height), (500, 400));
    assert_eq!(ctx.current_dims(), Dims { width: 500, height: 400 });
}

#[test]
fn regeneration_twice_yields_equivalent_resources() {
    let a = gen_frame_resources(3, Dims { width: 800, height: 600 });
    let b = gen_frame_resources(3, Dims { width: 800, height: 600 });
    assert_eq!(a.framebuffers.len(), b.framebuffers.len());
    for i in 0..a.framebuffers.len() {
        assert_eq!(a.framebuffers[i], b.framebuffers[i]);
    }
    assert_eq!(a.depth, b.depth);
    assert_eq!(a.viewport, b.viewport);
}

#[test]
fn image_count_request_is_triple_buffered_within_capabilities() {
    assert_eq!(requested_image_count(1, Some(8)), 3);
    assert_eq!(requested_image_count(1, Some(2)), 2);
    assert_eq!(requested_image_count(1, Some(3)), 3);
    assert_eq!(requested_image_count(1, None), 3);
    assert_eq!(requested_image_count(5, None), 5);
    assert_eq!(requested_image_count(3, None), 3);
}

#[test]
fn frame_dependencies_wait_on_both_signals() {
    let mut ctx = LoopCtx::new(Dims { width: 800, height: 600 });
    ctx.on_regeneration(Some(3));
    assert!(ctx.previous_frame_ready());
    assert!(ctx.frame_dependencies(Signal::completed()).is_ready());
    assert!(!ctx.frame_dependencies(Signal::pending()).is_ready());
    ctx.on_frame_outcome(SubmitOutcome::Completed(Signal::pending()));
    assert!(!ctx.frame_dependencies(Signal::completed()).is_ready());
}
