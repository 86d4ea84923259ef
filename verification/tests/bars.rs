use rbar::bar::module::Module;
use rbar::bar::node::Node;
use rbar::bar::style::Style;
use rbar::bar::{Bar, BarState, LayerSurfaceId, OutputId};
use rbar::error::{RenderError, SurfaceError};
use rbar::renderer::Renderer;
use rbar::structures::Globals;
use rbar::surface::{CompositeAlphaMode, PresentMode, SurfaceCapabilities};

fn bar(layer: u32, output: u32) -> Bar {
    let capabilities = SurfaceCapabilities {
        formats: vec![wgpu::TextureFormat::Bgra8UnormSrgb],
        present_modes: vec![PresentMode::Fifo],
        alpha_modes: vec![CompositeAlphaMode::Auto],
    };
    let renderer = Renderer::new(true, true).unwrap().create_surface_renderer(&capabilities, 100, 100);
    Bar::new(LayerSurfaceId(layer), OutputId(output), renderer).unwrap()
}

#[test]
fn a_new_bar_awaits_its_first_configure() {
    let b = bar(7, 1);
    assert_eq!(b.state(), BarState::AwaitingConfigure);
    assert_eq!(b.layer_surface(), LayerSurfaceId(7));
    assert_eq!(b.output(), OutputId(1));
    assert_eq!((b.width(), b.height()), (0, 0));
    assert_eq!(b.surface_renderer().widget_count(), 1);
}

#[test]
fn a_bar_that_is_not_configured_draws_nothing() {
    assert_eq!(bar(7, 1).render(Ok(())), None);
}

#[test]
fn configure_sizes_the_bar_before_it_draws() {
    let mut b = bar(7, 1);
    let resize = b.configure(300, 30).unwrap();
    assert_eq!(b.state(), BarState::Configured { width: 300, height: 30 });
    assert_eq!((b.width(), b.height()), (300, 30));
    assert_eq!((resize.config.width, resize.config.height), (300, 30));
    assert_eq!(resize.uniform, Globals::for_size(300, 30).to_bytes());
    assert_eq!(b.surface_renderer().globals(), Globals::for_size(300, 30));
    let frame = b.render(Ok(())).unwrap().unwrap();
    assert_eq!(frame.globals, Globals::for_size(300, 30));
    assert_eq!(frame.draw.instance_count, 1);
}

#[test]
fn a_second_configure_replaces_the_size() {
    let mut b = bar(7, 1);
    b.configure(300, 30);
    b.configure(400, 32);
    assert_eq!(b.state(), BarState::Configured { width: 400, height: 32 });
    assert_eq!(b.render(Ok(())).unwrap().unwrap().globals, Globals::for_size(400, 32));
}

#[test]
fn a_configured_bar_reports_a_failed_acquisition() {
    let mut b = bar(7, 1);
    b.configure(300, 30);
    assert_eq!(b.render(Err(SurfaceError::Lost)), Some(Err(RenderError::SurfaceLost)));
    assert_eq!(b.render(Err(SurfaceError::Timeout)), Some(Err(RenderError::SurfaceAcquireTimeout)));
}

#[test]
fn nothing_leaves_the_closed_state() {
    let mut b = bar(7, 1);
    b.configure(300, 30);
    b.close();
    assert_eq!(b.state(), BarState::Closed);
    assert!(b.configure(500, 40).is_none());
    assert_eq!(b.state(), BarState::Closed);
    assert_eq!((b.width(), b.height()), (300, 30));
    assert_eq!(b.surface_renderer().globals(), Globals::for_size(300, 30));
    assert_eq!(b.render(Ok(())), None);
    b.close();
    assert_eq!(b.state(), BarState::Closed);
}

#[test]
fn a_node_holds_its_children_in_order() {
    let leaf = |text: &str| Node { style: Style {}, content: text.to_string(), children: vec![] };
    let root = Node { style: Style::default(), content: String::new(), children: vec![leaf("a"), leaf("b")] };
    assert_eq!(root.children.len(), 2);
    assert_eq!(root.children[0].content, "a");
    assert_eq!(root.children[1].content, "b");
    assert!(root.children[1].children.is_empty());
    assert_eq!(root.style, Style {});
    assert_eq!(Module::default(), Module {});
}
