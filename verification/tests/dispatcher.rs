use rbar::app::{App, KeyboardInteractivity, Layer, BAR_HEIGHT, INITIAL_HEIGHT, INITIAL_WIDTH};
use rbar::bar::{BarState, LayerSurfaceId, OutputId};
use rbar::error::{RenderError, SurfaceError};
use rbar::structures::{Globals, Size};
use rbar::surface::{CompositeAlphaMode, PresentMode, SurfaceCapabilities};

const A: OutputId = OutputId(10);
const B: OutputId = OutputId(11);
const C: OutputId = OutputId(12);
const LAYER_A: LayerSurfaceId = LayerSurfaceId(20);
const LAYER_B: LayerSurfaceId = LayerSurfaceId(21);
const LAYER_C: LayerSurfaceId = LayerSurfaceId(22);

fn capabilities() -> SurfaceCapabilities {
    SurfaceCapabilities {
        formats: vec![wgpu::TextureFormat::Bgra8Unorm, wgpu::TextureFormat::Bgra8UnormSrgb],
        present_modes: vec![PresentMode::Fifo],
        alpha_modes: vec![CompositeAlphaMode::PreMultiplied],
    }
}

fn app() -> App {
    App::new(true, true).unwrap()
}

fn outputs(app: &App) -> Vec<OutputId> {
    app.bars().iter().map(|b| b.output()).collect()
}

#[test]
fn a_dispatcher_needs_a_negotiated_context() {
    assert_eq!(App::new(false, false).err(), Some(RenderError::AdapterUnavailable));
    assert_eq!(App::new(true, false).err(), Some(RenderError::DeviceCreationFailed));
    assert!(app().bars().is_empty());
}

#[test]
fn the_layer_request_describes_a_strip_at_the_top() {
    let request = app().layer_request(A);
    assert_eq!(request.output, A);
    assert_eq!(request.layer, Layer::Top);
    assert_eq!(request.namespace, "rbar");
    assert!(request.anchor_top && request.anchor_left && request.anchor_right);
    assert!(!request.anchor_bottom);
    assert_eq!(request.keyboard_interactivity, KeyboardInteractivity::Never);
    assert_eq!((request.width, request.height), (0, 30));
    assert_eq!(request.exclusive_zone, 30);
    assert_eq!(BAR_HEIGHT, 30);
}

#[test]
fn an_output_gets_a_bar_that_awaits_configure() {
    let mut app = app();
    app.new_output(A, LAYER_A, &capabilities());
    assert_eq!(app.bars().len(), 1);
    let bar = &app.bars()[0];
    assert_eq!(bar.output(), A);
    assert_eq!(bar.layer_surface(), LAYER_A);
    assert_eq!(bar.state(), BarState::AwaitingConfigure);
    let config = bar.surface_renderer().config();
    assert_eq!((config.width, config.height), (INITIAL_WIDTH, INITIAL_HEIGHT));
    assert_eq!((config.width, config.height), (100, 100));
    assert_eq!(config.format, wgpu::TextureFormat::Bgra8UnormSrgb);
}

#[test]
fn one_output_from_appearing_to_removal() {
    let mut app = app();
    app.new_output(A, LAYER_A, &capabilities());
    assert_eq!(app.bars()[0].state(), BarState::AwaitingConfigure);
    let resize = app.configure(LAYER_A, 300, 30).unwrap();
    assert_eq!((resize.config.width, resize.config.height), (300, 30));
    assert_eq!(app.bars()[0].state(), BarState::Configured { width: 300, height: 30 });
    let frame = app.render(LAYER_A, Ok(())).unwrap().unwrap();
    assert_eq!(frame.globals, Globals::for_size(300, 30));
    assert_eq!(frame.draw.index_count, 6);
    let removed = app.output_destroyed(A);
    assert_eq!(removed.len(), 1);
    assert_eq!(removed[0].output(), A);
    assert_eq!(removed[0].state(), BarState::Closed);
    assert!(app.bars().is_empty());
    assert!(!outputs(&app).contains(&A));
    assert_eq!(app.render(LAYER_A, Ok(())), None);
}

#[test]
fn two_outputs_keep_their_uniforms_apart() {
    let mut app = app();
    app.new_output(A, LAYER_A, &capabilities());
    app.new_output(B, LAYER_B, &capabilities());
    app.configure(LAYER_A, 300, 30);
    app.configure(LAYER_B, 400, 30);
    assert_eq!(app.bars()[0].surface_renderer().globals(), Globals::for_size(300, 30));
    assert_eq!(app.bars()[1].surface_renderer().globals(), Globals::for_size(400, 30));
    let b_before = app.bars()[1].surface_renderer().globals();
    let b_bytes = b_before.to_bytes();
    app.configure(LAYER_A, 640, 30);
    assert_eq!(app.bars()[0].surface_renderer().globals(), Globals::for_size(640, 30));
    assert_eq!(app.bars()[1].surface_renderer().globals(), b_before);
    assert_eq!(app.bars()[1].surface_renderer().globals().to_bytes(), b_bytes);
    assert_eq!(app.bars()[1].state(), BarState::Configured { width: 400, height: 30 });
    assert_eq!(app.render(LAYER_B, Ok(())).unwrap().unwrap().globals, Globals::for_size(400, 30));
}

#[test]
fn removing_an_output_leaves_the_others_untouched() {
    let mut app = app();
    app.new_output(A, LAYER_A, &capabilities());
    app.new_output(B, LAYER_B, &capabilities());
    app.new_output(C, LAYER_C, &capabilities());
    app.configure(LAYER_A, 300, 30);
    app.configure(LAYER_C, 500, 30);
    let removed = app.output_destroyed(B);
    assert_eq!(removed.len(), 1);
    assert_eq!(removed[0].layer_surface(), LAYER_B);
    assert_eq!(outputs(&app), vec![A, C]);
    assert_eq!(app.bars()[0].state(), BarState::Configured { width: 300, height: 30 });
    assert_eq!(app.bars()[0].surface_renderer().globals(), Globals::for_size(300, 30));
    assert_eq!(app.bars()[1].state(), BarState::Configured { width: 500, height: 30 });
    assert_eq!(app.bars()[1].surface_renderer().globals(), Globals::for_size(500, 30));
}

#[test]
fn removing_an_unknown_output_changes_nothing() {
    let mut app = app();
    app.new_output(A, LAYER_A, &capabilities());
    app.new_output(B, LAYER_B, &capabilities());
    assert!(app.output_destroyed(C).is_empty());
    assert_eq!(outputs(&app), vec![A, B]);
}

#[test]
fn closing_a_layer_removes_its_bar() {
    let mut app = app();
    app.new_output(A, LAYER_A, &capabilities());
    app.new_output(B, LAYER_B, &capabilities());
    let removed = app.closed(LAYER_A);
    assert_eq!(removed.len(), 1);
    assert_eq!(removed[0].output(), A);
    assert_eq!(removed[0].state(), BarState::Closed);
    assert_eq!(outputs(&app), vec![B]);
    assert!(app.closed(LAYER_A).is_empty());
    assert_eq!(app.configure(LAYER_A, 300, 30), None);
    assert_eq!(outputs(&app), vec![B]);
}

#[test]
fn every_bar_of_an_output_is_removed() {
    let mut app = app();
    app.new_output(A, LAYER_A, &capabilities());
    app.new_output(B, LAYER_B, &capabilities());
    app.new_output(A, LAYER_C, &capabilities());
    let removed = app.output_destroyed(A);
    assert_eq!(removed.iter().map(|b| b.layer_surface()).collect::<Vec<_>>(), vec![LAYER_A, LAYER_C]);
    assert_eq!(outputs(&app), vec![B]);
}

#[test]
fn configure_reaches_the_first_bar_on_the_layer_only() {
    let mut app = app();
    app.new_output(A, LAYER_A, &capabilities());
    app.new_output(B, LAYER_A, &capabilities());
    assert_eq!(app.find(LAYER_A), Some(0));
    assert_eq!(app.find(LAYER_B), None);
    app.configure(LAYER_A, 300, 30);
    assert_eq!(app.bars()[0].state(), BarState::Configured { width: 300, height: 30 });
    assert_eq!(app.bars()[1].state(), BarState::AwaitingConfigure);
    assert_eq!(app.bars()[1].surface_renderer().globals(), Globals { resolution: Size(0, 0) });
}

#[test]
fn configure_for_an_unknown_layer_does_nothing() {
    let mut app = app();
    app.new_output(A, LAYER_A, &capabilities());
    assert_eq!(app.configure(LAYER_B, 300, 30), None);
    assert_eq!(app.bars()[0].state(), BarState::AwaitingConfigure);
    assert_eq!(app.render(LAYER_B, Ok(())), None);
}

#[test]
fn render_before_configure_draws_nothing() {
    let mut app = app();
    app.new_output(A, LAYER_A, &capabilities());
    assert_eq!(app.render(LAYER_A, Ok(())), None);
}

#[test]
fn a_lost_surface_is_reported_to_the_caller() {
    let mut app = app();
    app.new_output(A, LAYER_A, &capabilities());
    app.configure(LAYER_A, 300, 30);
    assert_eq!(app.render(LAYER_A, Err(SurfaceError::Lost)), Some(Err(RenderError::SurfaceLost)));
    assert_eq!(app.bars().len(), 1);
}
