//! One bar per compositor output: its life from creation to removal.

pub mod module;
pub mod node;
pub mod style;

use vstd::prelude::*;

use crate::bar::module::Module;
use crate::error::{RenderError, SurfaceError};
use crate::renderer::{FramePlan, Resize, SurfaceRenderer, SurfaceRendererView};
use crate::structures::Globals;

verus! {

/// The protocol id of a compositor output.
#[derive(Copy, Clone, Debug, PartialEq, Eq, Structural)]
pub struct OutputId(pub u32);

/// The protocol id of a layer surface.
#[derive(Copy, Clone, Debug, PartialEq, Eq, Structural)]
pub struct LayerSurfaceId(pub u32);

/// Where a bar stands in its life.
#[derive(Copy, Clone, Debug, PartialEq, Eq, Structural)]
pub enum BarState {
    /// The bar exists; its layer surface is not committed yet.
    Created,
    /// The layer surface is committed and the compositor has not sized it.
    AwaitingConfigure,
    /// The compositor gave the bar this size.
    Configured { width: u32, height: u32 },
    /// The output went away or the layer was closed.
    Closed,
}

/// What a bar stands for.
pub struct BarView {
    pub layer_surface: LayerSurfaceId,
    pub output: OutputId,
    pub width: u32,
    pub height: u32,
    pub modules: Seq<Module>,
    pub state: BarState,
    pub renderer: SurfaceRendererView,
}

impl BarView {
    /// The renderer is well formed, and a configured bar has an area, which
    /// its surface configuration and its uniform both carry.
    pub open spec fn wf(self) -> bool {
        &&& self.renderer.wf()
        &&& self.state matches BarState::Configured { width, height } ==> {
            &&& width > 0
            &&& height > 0
            &&& self.width == width
            &&& self.height == height
            &&& self.renderer.config.width == width
            &&& self.renderer.config.height == height
            &&& self.renderer.globals == Globals::of_size(width, height)
        }
    }

    /// A bar as it is made for `output`: committed, without a size, waiting
    /// for the compositor to configure it.
    pub open spec fn created(
        layer_surface: LayerSurfaceId,
        output: OutputId,
        renderer: SurfaceRendererView,
    ) -> BarView {
        BarView {
            layer_surface,
            output,
            width: 0,
            height: 0,
            modules: Seq::empty(),
            state: BarState::AwaitingConfigure,
            renderer,
        }
    }

    /// The bar after the compositor gave it a size. A closed bar stays as
    /// it is.
    pub open spec fn configured(self, width: u32, height: u32) -> BarView {
        if self.state is Closed {
            self
        } else {
            BarView {
                width,
                height,
                state: BarState::Configured { width, height },
                renderer: self.renderer.resized(width, height),
                ..self
            }
        }
    }

    /// The bar after its output went away or its layer was closed.
    pub open spec fn closed(self) -> BarView {
        BarView { state: BarState::Closed, ..self }
    }

    /// What rendering comes to once the surface has answered the request
    /// for a texture. Only a configured bar draws.
    pub open spec fn rendered(self, acquired: Result<(), SurfaceError>) -> Option<
        Result<FramePlan, RenderError>,
    > {
        if self.state is Configured {
            Some(self.renderer.rendered(acquired))
        } else {
            None
        }
    }
}

/// The bar of one output: the output and the layer surface it belongs to,
/// its size and state, and the renderer of its surface.
#[derive(Debug)]
pub struct Bar {
    layer_surface: LayerSurfaceId,
    output: OutputId,
    width: u32,
    height: u32,
    modules: Vec<Module>,
    state: BarState,
    surface_renderer: SurfaceRenderer,
}

impl View for Bar {
    type V = BarView;

    closed spec fn view(&self) -> BarView {
        BarView {
            layer_surface: self.layer_surface,
            output: self.output,
            width: self.width,
            height: self.height,
            modules: self.modules@,
            state: self.state,
            renderer: self.surface_renderer@,
        }
    }
}

impl Bar {
    /// The bar of `output`, drawn on `layer_surface` by `surface_renderer`.
    /// It waits for the compositor to configure it.
    pub fn new(
        layer_surface: LayerSurfaceId,
        output: OutputId,
        surface_renderer: SurfaceRenderer,
    ) -> (bar: Result<Bar, RenderError>)
        ensures
            bar matches Ok(b) && b@ == BarView::created(
                layer_surface,
                output,
                surface_renderer@,
            ),
            surface_renderer@.wf() ==> bar.unwrap()@.wf(),
    {
        Ok(
            Bar {
                layer_surface,
                output,
                width: 0,
                height: 0,
                modules: Vec::new(),
                state: BarState::AwaitingConfigure,
                surface_renderer,
            },
        )
    }

    /// The layer surface the bar is drawn on.
    pub fn layer_surface(&self) -> (id: LayerSurfaceId)
        ensures
            id == self@.layer_surface,
    {
        self.layer_surface
    }

    /// The output the bar belongs to.
    pub fn output(&self) -> (id: OutputId)
        ensures
            id == self@.output,
    {
        self.output
    }

    /// The width the compositor gave last; 0 before the first configure.
    pub fn width(&self) -> (width: u32)
        ensures
            width == self@.width,
    {
        self.width
    }

    /// The height the compositor gave last; 0 before the first configure.
    pub fn height(&self) -> (height: u32)
        ensures
            height == self@.height,
    {
        self.height
    }

    /// Where the bar stands in its life.
    pub fn state(&self) -> (state: BarState)
        ensures
            state == self@.state,
    {
        self.state
    }

    /// The renderer of the bar's surface.
    pub fn surface_renderer(&self) -> (renderer: &SurfaceRenderer)
        ensures
            renderer@ == self@.renderer,
    {
        &self.surface_renderer
    }

    /// Takes the size the compositor gave: the bar becomes configured, its
    /// surface takes the size and its uniform the resolution, in that order
    /// before anything is drawn. Returns what the caller has to apply to the
    /// surface. A closed bar ignores the event and returns `None`.
    pub fn configure(&mut self, width: u32, height: u32) -> (resize: Option<Resize>)
        requires
            old(self)@.wf(),
            width > 0,
            height > 0,
        ensures
            final(self)@ == old(self)@.configured(width, height),
            final(self)@.wf(),
            resize is None <==> old(self)@.state is Closed,
            resize matches Some(r) ==> r.config == final(self)@.renderer.config && r.uniform@
                == Globals::of_size(width, height).bytes(),
    {
        match self.state {
            BarState::Closed => None,
            _ => {
                self.width = width;
                self.height = height;
                self.state = BarState::Configured { width, height };
                Some(self.surface_renderer.set_size(width, height))
            },
        }
    }

    /// Closes the bar. Nothing reopens it.
    pub fn close(&mut self)
        ensures
            final(self)@ == old(self)@.closed(),
            old(self)@.wf() ==> final(self)@.wf(),
    {
        self.state = BarState::Closed;
    }

    /// Decides what a frame does, once the surface has answered the request
    /// for a texture. A bar that is not configured draws nothing and
    /// returns `None`.
    pub fn render(&self, acquired: Result<(), SurfaceError>) -> (outcome: Option<
        Result<FramePlan, RenderError>,
    >)
        requires
            self@.wf(),
        ensures
            outcome == self@.rendered(acquired),
    {
        match self.state {
            BarState::Configured { .. } => Some(self.surface_renderer.render(acquired)),
            _ => None,
        }
    }
}

/// Once closed, a bar stays closed: neither a configure event nor a second
/// close changes it.
pub proof fn lemma_closed_is_final(bar: BarView, width: u32, height: u32)
    requires
        bar.state is Closed,
    ensures
        bar.configured(width, height) == bar,
        bar.closed() == bar,
        bar.rendered(Ok(())) is None,
{
}

/// After a configure event a bar that is not closed is configured with the
/// size of the event, and if the surface then hands out a texture the frame
/// is drawn with exactly that size as its resolution.
pub proof fn lemma_configure_then_render(bar: BarView, width: u32, height: u32)
    requires
        bar.wf(),
        !(bar.state is Closed),
        width > 0,
        height > 0,
    ensures
        bar.configured(width, height).wf(),
        bar.configured(width, height).state == (BarState::Configured { width, height }),
        bar.configured(width, height).rendered(Ok(())) matches Some(Ok(frame)) && frame.globals
            == Globals::of_size(width, height),
{
}

/// Whatever a well-formed bar draws, it draws with the uniform holding the
/// size of the last configure event.
pub proof fn lemma_frame_has_configured_size(bar: BarView, acquired: Result<(), SurfaceError>)
    requires
        bar.wf(),
    ensures
        bar.rendered(acquired) matches Some(Ok(frame)) ==> bar.state matches BarState::Configured {
            width,
            height,
        } && frame.globals == Globals::of_size(width, height),
{
}

} // verus!
