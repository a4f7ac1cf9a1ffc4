use render_harness::context::{
    adapter_outcome, adapter_request, choose_format, device_outcome, device_request, LimitsTier,
    StartupError,
};
use render_harness::events::{Action, Event, FrameLoop, Key, KeyState, WindowEvent};
use render_harness::frame::{background, render_plan, AcquireOutcome, FrameDecision, RenderCommand};
use render_harness::pipeline::{
    vertex_entry_point, fragment_entry_point, BlendMode, Face, FrontFace, PipelineSpec,
    PolygonMode, PrimitiveTopology,
};
use render_harness::state::State;
use render_harness::surface::{AlphaMode, PresentMode};

fn escape(state: KeyState) -> Event {
    Event::Window(WindowEvent::KeyboardInput { state, key: Some(Key::Escape) })
}

#[test]
fn new_state_matches_window() {
    let s = State::new(800, 600, 7);
    assert_eq!(s.config.width, 800);
    assert_eq!(s.config.height, 600);
    assert_eq!(s.config.format, 7);
    assert_eq!(s.config.present_mode, PresentMode::Fifo);
    assert_eq!(s.config.alpha_mode, AlphaMode::Auto);
    assert_eq!(s.size.width, 800);
    assert_eq!(s.size.height, 600);
    assert_eq!(s.pipeline, PipelineSpec::build(7));
}

#[test]
fn resize_same_size_is_noop() {
    let mut s = State::new(800, 600, 7);
    let before = s;
    let reconfigure = s.resize(800, 600);
    assert!(reconfigure);
    assert_eq!(s, before);
}

#[test]
fn resize_updates_size_and_config() {
    let mut s = State::new(800, 600, 7);
    let reconfigure = s.resize(1024, 768);
    assert!(reconfigure);
    assert_eq!(s.config.width, 1024);
    assert_eq!(s.config.height, 768);
    assert_eq!(s.size.width, 1024);
    assert_eq!(s.size.height, 768);
    assert_eq!(s.config.format, 7);
}

#[test]
fn resize_zero_width_ignored() {
    let mut s = State::new(800, 600, 7);
    let before = s;
    let reconfigure = s.resize(0, 768);
    assert!(!reconfigure);
    assert_eq!(s, before);
}

#[test]
fn resize_zero_height_ignored() {
    let mut s = State::new(800, 600, 7);
    let before = s;
    let reconfigure = s.resize(1024, 0);
    assert!(!reconfigure);
    assert_eq!(s, before);
}

#[test]
fn render_plan_is_the_fixed_protocol() {
    let cmds = render_plan();
    assert_eq!(
        cmds,
        vec![
            RenderCommand::BeginPass(background()),
            RenderCommand::SetPipeline,
            RenderCommand::Draw { vertices: 3, instances: 1 },
            RenderCommand::EndPass,
            RenderCommand::Submit,
            RenderCommand::Present,
        ]
    );
}

#[test]
fn render_plan_has_exactly_one_draw_submit_present() {
    let cmds = render_plan();
    let draws = cmds
        .iter()
        .filter(|c| matches!(c, RenderCommand::Draw { .. }))
        .count();
    let submits = cmds.iter().filter(|c| matches!(c, RenderCommand::Submit)).count();
    let presents = cmds.iter().filter(|c| matches!(c, RenderCommand::Present)).count();
    assert_eq!(draws, 1);
    assert_eq!(submits, 1);
    assert_eq!(presents, 1);
    assert!(matches!(cmds[2], RenderCommand::Draw { vertices: 3, instances: 1 }));
    // The pass is closed before the buffer is submitted, and the image
    // is presented only after the submit.
    let end = cmds.iter().position(|c| matches!(c, RenderCommand::EndPass)).unwrap();
    let submit = cmds.iter().position(|c| matches!(c, RenderCommand::Submit)).unwrap();
    let present = cmds.iter().position(|c| matches!(c, RenderCommand::Present)).unwrap();
    assert!(end < submit && submit < present);
}

#[test]
fn background_is_the_fixed_dark_blue() {
    let c = background();
    assert_eq!(c.red_tenths, 1);
    assert_eq!(c.green_tenths, 2);
    assert_eq!(c.blue_tenths, 3);
    assert_eq!(c.alpha_tenths, 10);
}

#[test]
fn lost_surface_reconfigures_then_recovers() {
    let mut fl = FrameLoop::start(State::new(640, 480, 2));
    let before = fl.state;
    let d = fl.redraw(AcquireOutcome::Lost);
    assert_eq!(d, FrameDecision::Reconfigure);
    // Reconfiguration happens at the pre-failure size; nothing stored moved.
    assert_eq!(fl.state, before);
    assert!(fl.running);
    // The next tick can succeed and draws.
    let d = fl.redraw(AcquireOutcome::Acquired);
    assert_eq!(d, FrameDecision::Draw);
    assert!(fl.running);
}

#[test]
fn out_of_memory_exits() {
    let mut fl = FrameLoop::start(State::new(640, 480, 2));
    let d = fl.redraw(AcquireOutcome::OutOfMemory);
    assert_eq!(d, FrameDecision::Exit);
    assert!(!fl.running);
}

#[test]
fn transient_errors_skip_the_frame() {
    let mut fl = FrameLoop::start(State::new(640, 480, 2));
    let before = fl.state;
    assert_eq!(fl.redraw(AcquireOutcome::Timeout), FrameDecision::Skip);
    assert!(fl.running);
    assert_eq!(fl.redraw(AcquireOutcome::Outdated), FrameDecision::Skip);
    assert!(fl.running);
    assert_eq!(fl.state, before);
}

#[test]
fn escape_pressed_exits() {
    let mut fl = FrameLoop::start(State::new(640, 480, 2));
    let a = fl.handle_event(&escape(KeyState::Pressed));
    assert_eq!(a, Action::Exit);
    assert!(!fl.running);
}

#[test]
fn escape_released_does_not_exit() {
    let mut fl = FrameLoop::start(State::new(640, 480, 2));
    let a = fl.handle_event(&escape(KeyState::Released));
    assert_ne!(a, Action::Exit);
    assert!(fl.running);
}

#[test]
fn other_keys_do_nothing() {
    let mut fl = FrameLoop::start(State::new(640, 480, 2));
    let a = fl.handle_event(&Event::Window(WindowEvent::KeyboardInput {
        state: KeyState::Pressed,
        key: Some(Key::Other),
    }));
    assert_eq!(a, Action::Nothing);
    let a = fl.handle_event(&Event::Window(WindowEvent::KeyboardInput {
        state: KeyState::Pressed,
        key: None,
    }));
    assert_eq!(a, Action::Nothing);
    assert!(fl.running);
}

#[test]
fn close_requested_exits() {
    let mut fl = FrameLoop::start(State::new(640, 480, 2));
    let a = fl.handle_event(&Event::Window(WindowEvent::CloseRequested));
    assert_eq!(a, Action::Exit);
    assert!(!fl.running);
}

#[test]
fn resize_event_reconfigures() {
    let mut fl = FrameLoop::start(State::new(640, 480, 2));
    let a = fl.handle_event(&Event::Window(WindowEvent::Resized { width: 1280, height: 720 }));
    assert_eq!(a, Action::Reconfigure);
    assert_eq!(fl.state.config.width, 1280);
    assert_eq!(fl.state.config.height, 720);
}

#[test]
fn zero_resize_event_is_ignored() {
    let mut fl = FrameLoop::start(State::new(640, 480, 2));
    let before = fl.state;
    let a = fl.handle_event(&Event::Window(WindowEvent::Resized { width: 0, height: 720 }));
    assert_eq!(a, Action::Nothing);
    assert_eq!(fl.state, before);
}

#[test]
fn scale_factor_change_resizes() {
    let mut fl = FrameLoop::start(State::new(640, 480, 2));
    let a = fl.handle_event(&Event::Window(WindowEvent::ScaleFactorChanged {
        width: 1280,
        height: 960,
    }));
    assert_eq!(a, Action::Reconfigure);
    assert_eq!(fl.state.size.width, 1280);
    assert_eq!(fl.state.size.height, 960);
}

#[test]
fn redraw_requested_renders() {
    let mut fl = FrameLoop::start(State::new(640, 480, 2));
    let a = fl.handle_event(&Event::RedrawRequested);
    assert_eq!(a, Action::RenderFrame);
}

#[test]
fn batch_yields_exactly_one_redraw_request() {
    let mut fl = FrameLoop::start(State::new(640, 480, 2));
    let events = vec![
        Event::Window(WindowEvent::Resized { width: 320, height: 200 }),
        Event::Other,
        Event::RedrawRequested,
    ];
    let actions = fl.process_batch(&events);
    let redraws = actions.iter().filter(|a| matches!(a, Action::RequestRedraw)).count();
    assert_eq!(redraws, 1);
    assert_eq!(actions.last(), Some(&Action::RequestRedraw));
    assert!(fl.running);
}

#[test]
fn batch_dispatches_every_event_in_order() {
    let mut fl = FrameLoop::start(State::new(640, 480, 2));
    let events = vec![
        Event::Window(WindowEvent::Resized { width: 320, height: 200 }),
        Event::Other,
        Event::Window(WindowEvent::Resized { width: 0, height: 100 }),
    ];
    let actions = fl.process_batch(&events);
    assert_eq!(
        actions,
        vec![Action::Reconfigure, Action::Nothing, Action::Nothing, Action::RequestRedraw]
    );
    assert_eq!(fl.state.config.width, 320);
    assert_eq!(fl.state.config.height, 200);
}

#[test]
fn empty_batch_still_requests_one_redraw() {
    let mut fl = FrameLoop::start(State::new(640, 480, 2));
    let actions = fl.process_batch(&Vec::new());
    assert_eq!(actions, vec![Action::RequestRedraw]);
    assert!(fl.running);
}

#[test]
fn batch_stops_at_an_exit_event() {
    let mut fl = FrameLoop::start(State::new(640, 480, 2));
    let before = fl.state;
    let events = vec![
        escape(KeyState::Pressed),
        // Dropped: the loop is already exiting.
        Event::Window(WindowEvent::Resized { width: 320, height: 200 }),
    ];
    let actions = fl.process_batch(&events);
    assert!(!fl.running);
    assert_eq!(fl.state, before);
    assert_eq!(actions, vec![Action::Exit, Action::RequestRedraw]);
}

#[test]
fn input_consumes_nothing() {
    let mut s = State::new(640, 480, 2);
    let before = s;
    assert!(!s.input(&WindowEvent::CloseRequested));
    assert!(!s.input(&WindowEvent::Other));
    assert_eq!(s, before);
}

#[test]
fn update_changes_nothing() {
    let mut s = State::new(640, 480, 2);
    let before = s;
    s.update();
    assert_eq!(s, before);
}

#[test]
fn choose_format_picks_the_first_supported() {
    let supported: Vec<u32> = vec![5, 9, 1];
    assert_eq!(choose_format(&supported), Ok(5));
}

#[test]
fn choose_format_with_none_supported_is_fatal() {
    let supported: Vec<u32> = Vec::new();
    assert_eq!(choose_format(&supported), Err(StartupError::NoSupportedFormat));
}

#[test]
fn pipeline_parameters_are_fixed() {
    let p = PipelineSpec::build(42);
    assert_eq!(p.topology, PrimitiveTopology::TriangleList);
    assert_eq!(p.front_face, FrontFace::Ccw);
    assert_eq!(p.cull_mode, Some(Face::Back));
    assert_eq!(p.polygon_mode, PolygonMode::Fill);
    assert!(!p.unclipped_depth);
    assert!(!p.conservative_raster);
    assert!(!p.has_depth_stencil);
    assert_eq!(p.sample_count, 1);
    assert!(p.sample_mask_all);
    assert!(!p.alpha_to_coverage);
    assert_eq!(p.blend, BlendMode::Replace);
    assert!(p.writes_all_channels);
    assert_eq!(p.target_format, 42);
    assert_eq!(p.vertex_buffer_count, 0);
}

#[test]
fn shader_entry_points() {
    assert_eq!(vertex_entry_point(), "vs_main");
    assert_eq!(fragment_entry_point(), "fs_main");
}

#[test]
fn failed_adapter_negotiation_is_fatal() {
    assert_eq!(adapter_outcome(false), Err(StartupError::NoAdapter));
    assert_eq!(adapter_outcome(true), Ok(()));
}

#[test]
fn denied_device_request_is_fatal() {
    assert_eq!(device_outcome(false), Err(StartupError::DeviceDenied));
    assert_eq!(device_outcome(true), Ok(()));
}

#[test]
fn startup_requests_are_fixed() {
    let a = adapter_request();
    assert!(a.require_surface_compatible);
    assert!(!a.force_fallback);
    let d = device_request();
    assert!(d.no_extra_features);
    assert_eq!(d.limits, LimitsTier::Downlevel);
}
