use kartina::camera::UniformStaging;
use kartina::color::AudioFrame;
use kartina::coordinator::AudioEvent;
use kartina::coordinator::Coordinator;
use kartina::coordinator::InputEvent;
use kartina::coordinator::RenderDirective;
use kartina::handoff::FrameSlot;
use kartina::lifecycle::Lifecycle;
use kartina::lifecycle::PresentError;
use kartina::lifecycle::SurfaceConfig;

fn ready_coordinator() -> Coordinator {
    let config = SurfaceConfig { width: 800, height: 600, format: 7, present_mode: 1 };
    Coordinator::new(Lifecycle::init(config, 42))
}

#[test]
fn test_resize_rebuilds_swap_configuration_only() {
    let mut c = ready_coordinator();
    c.on_input(&InputEvent::Resized { width: 1024, height: 768 });
    assert_eq!(c.lifecycle.config.width, 1024);
    assert_eq!(c.lifecycle.config.height, 768);
    assert_eq!(c.lifecycle.config.format, 7);
    assert_eq!(c.lifecycle.config.present_mode, 1);
    // Pipeline identity is unchanged across a resize.
    assert_eq!(c.lifecycle.pipeline_id, 42);
    assert_eq!(c.lifecycle.swap_generation, 1);
    assert!(!c.shutdown);

    // Resizing to the current size is a no-op: no rebuild.
    c.on_input(&InputEvent::Resized { width: 1024, height: 768 });
    assert_eq!(c.lifecycle.swap_generation, 1);

    // A successful render leaves the configuration alone.
    let d = c.on_render_result(&Ok(()));
    assert_eq!(d, RenderDirective::Proceed);
    assert_eq!(c.lifecycle.config.width, 1024);
    assert_eq!(c.lifecycle.config.height, 768);
    assert_eq!(c.lifecycle.swap_generation, 1);
}

#[test]
fn test_lost_surface_forces_reconfiguration() {
    let mut c = ready_coordinator();
    let before = c.lifecycle;
    let d = c.on_render_result(&Err(PresentError::Lost));
    assert_eq!(d, RenderDirective::RetryAfterReconfigure);
    // The swap configuration was rebuilt at the current size.
    assert_eq!(c.lifecycle.config, before.config);
    assert_eq!(c.lifecycle.pipeline_id, before.pipeline_id);
    assert_eq!(c.lifecycle.swap_generation, before.swap_generation + 1);
    // The loop keeps running: the same frame may be retried.
    assert!(!c.shutdown);
    assert!(c.should_render());
}

#[test]
fn test_out_of_memory_is_fatal() {
    let mut c = ready_coordinator();
    let d = c.on_render_result(&Err(PresentError::OutOfMemory));
    assert_eq!(d, RenderDirective::Stop);
    assert!(c.shutdown);
    assert!(c.fatal);
    // No further render calls are made.
    assert!(!c.should_render());
    assert_eq!(c.exit_code(), 1);
}

#[test]
fn test_transient_error_skips_the_tick() {
    let mut c = ready_coordinator();
    let before = c;
    let d = c.on_render_result(&Err(PresentError::Transient));
    assert_eq!(d, RenderDirective::SkipTick);
    // The loop continues with nothing changed.
    assert_eq!(c, before);
    assert!(c.should_render());
    assert!(c.should_poll_audio());
}

#[test]
fn test_end_of_stream_shuts_down_gracefully() {
    let mut c = ready_coordinator();
    assert!(c.should_poll_audio());
    let recolor = c.on_audio(&AudioEvent::EndOfStream);
    assert!(!recolor);
    assert!(c.shutdown);
    assert!(!c.fatal);
    // No further frame is requested and nothing more is rendered.
    assert!(!c.should_poll_audio());
    assert!(!c.should_render());
    assert_eq!(c.exit_code(), 0);
}

#[test]
fn test_decode_error_is_fatal() {
    let mut c = ready_coordinator();
    let recolor = c.on_audio(&AudioEvent::DecodeError);
    assert!(!recolor);
    assert!(c.shutdown);
    assert!(c.fatal);
    assert_eq!(c.exit_code(), 1);
}

#[test]
fn test_frame_asks_for_recolor() {
    let mut c = ready_coordinator();
    let frame = AudioFrame::new(vec![3, 2, 1]);
    let recolor = c.on_audio(&AudioEvent::Frame(frame));
    assert!(recolor);
    assert!(!c.shutdown);
    assert!(c.should_render());
}

#[test]
fn test_close_and_escape_shut_down() {
    let mut c = ready_coordinator();
    c.on_input(&InputEvent::CloseRequested);
    assert!(c.shutdown);
    assert!(!c.fatal);
    assert_eq!(c.exit_code(), 0);

    let mut c2 = ready_coordinator();
    let lifecycle_before = c2.lifecycle;
    c2.on_input(&InputEvent::EscapePressed);
    assert!(c2.shutdown);
    assert_eq!(c2.lifecycle, lifecycle_before);
}

#[test]
fn test_rotation_advances_every_tick() {
    let mut c = ready_coordinator();
    assert_eq!(c.staging.model_rotation_deg, 0);
    c.update();
    c.update();
    c.update();
    assert_eq!(c.staging.model_rotation_deg, 6);
    // The rotation still advances when shutdown is pending.
    c.on_audio(&AudioEvent::EndOfStream);
    c.update();
    assert_eq!(c.staging.model_rotation_deg, 8);
}

#[test]
fn test_rotation_wraps_at_full_turn() {
    let mut s = UniformStaging { model_rotation_deg: 358 };
    s.update();
    assert_eq!(s.model_rotation_deg, 0);
    s.update();
    assert_eq!(s.model_rotation_deg, 2);
}

#[test]
fn test_frame_slot_last_write_wins() {
    let mut slot = FrameSlot::empty();
    assert!(slot.consume().is_none());
    slot.publish(AudioFrame::new(vec![1, 1, 1]));
    slot.publish(AudioFrame::new(vec![2, 2, 2]));
    let got = slot.consume().expect("a frame was pending");
    assert_eq!(got.data, vec![2, 2, 2]);
    // Consuming empties the slot: the next tick proceeds with stale colors.
    assert!(slot.consume().is_none());
}
