//! The renderer of one surface: what its buffers hold and what each frame
//! draws.
//!
//! Nothing here touches a GPU. Each operation updates a record of what the
//! surface's buffers hold and returns what the caller has to carry out: the
//! configuration to apply, the bytes to write, the draw to encode.

use vstd::prelude::*;

use crate::error::{RenderError, SurfaceError};
use crate::float32::lemma_f32_bits_examples;
use crate::structures::{
    encode_indices, encode_instances, encode_positions, indices_bytes, instances_words,
    positions_words, quad_corners, quad_indices, quad_triangles, quad_vertices, words_bytes, Color,
    Globals, Position, Size, VertexBufferLayout, VertexStepMode, WidgetInstance, GLOBALS_SIZE,
    INSTANCE_STRIDE, POSITION_STRIDE, instance_attributes, position_attributes,
};
use crate::surface::{SurfaceCapabilities, SurfaceConfiguration};

verus! {

/// Indices one instance of the unit quad is drawn with.
pub const QUAD_INDEX_COUNT: u32 = 6;

/// Records a fresh widget buffer has room for.
pub const INITIAL_WIDGET_CAPACITY: u32 = 1;

/// How a fragment's colour is combined with what the target holds.
#[derive(Copy, Clone, Debug, PartialEq, Eq, Structural)]
pub enum BlendMode {
    /// The fragment replaces the target.
    Replace,
    /// Source-over blending of colours that are not multiplied by alpha.
    AlphaBlending,
    /// Source-over blending of colours already multiplied by alpha.
    PremultipliedAlphaBlending,
}

/// The width of the indices in an index buffer.
#[derive(Copy, Clone, Debug, PartialEq, Eq, Structural)]
pub enum IndexFormat {
    Uint16,
    Uint32,
}

/// A uniform buffer as the shader sees it: where it is bound, which stages
/// read it and how many bytes it holds.
#[derive(Copy, Clone, Debug, PartialEq, Eq, Structural)]
pub struct UniformBinding {
    pub group: u32,
    pub binding: u32,
    pub vertex: bool,
    pub fragment: bool,
    pub size: u64,
}

/// Everything that determines the render pipeline of a surface.
#[derive(Debug, PartialEq, Eq)]
pub struct PipelineDescriptor {
    pub vertex_entry_point: &'static str,
    pub fragment_entry_point: &'static str,
    pub buffers: Vec<VertexBufferLayout>,
    pub format: wgpu::TextureFormat,
    pub blend: BlendMode,
    pub uniform: UniformBinding,
}

/// One indexed, instanced draw.
#[derive(Copy, Clone, Debug, PartialEq, Eq, Structural)]
pub struct DrawIndexed {
    pub first_index: u32,
    pub index_count: u32,
    pub base_vertex: i32,
    pub first_instance: u32,
    pub instance_count: u32,
}

/// What one frame's render pass does: clear the target to `clear`, bind the
/// quad's vertices at `vertex_slot`, the widget records at `instance_slot`,
/// the quad's indices in `index_format` and the uniform at `bind_group`, then
/// issue `draw`. `globals` is what the uniform holds while the draw runs.
#[derive(Copy, Clone, Debug, PartialEq, Eq, Structural)]
pub struct FramePlan {
    pub clear: Color,
    pub vertex_slot: u32,
    pub instance_slot: u32,
    pub index_format: IndexFormat,
    pub bind_group: u32,
    pub globals: Globals,
    pub draw: DrawIndexed,
}

/// What a change of size asks of the surface: apply `config`, then replace
/// the contents of the uniform buffer by `uniform`.
#[derive(Clone, Debug, PartialEq, Eq)]
pub struct Resize {
    pub config: SurfaceConfiguration,
    pub uniform: Vec<u8>,
}

/// What a change of the widget set asks of the widget buffer: if
/// `reallocate`, replace it by one with room for `capacity` records; then
/// write `contents` at its start.
#[derive(Clone, Debug, PartialEq, Eq)]
pub struct InstanceUpload {
    pub reallocate: bool,
    pub capacity: u32,
    pub contents: Vec<u8>,
}

/// What the buffers of a surface renderer hold when they are allocated.
#[derive(Clone, Debug, PartialEq, Eq)]
pub struct BufferContents {
    pub vertices: Vec<u8>,
    pub indices: Vec<u8>,
    pub widgets: Vec<u8>,
    pub widget_capacity: u32,
    pub globals_size: u64,
}

/// `pipeline` is the one that draws widgets into targets of `format`: the
/// quad's positions per vertex and the widget records per instance, shaded by
/// `vs_main` and `fs_main`, blended over the target by alpha, with the
/// globals uniform at group 0, binding 0, read by both stages.
pub open spec fn draws_widgets(pipeline: PipelineDescriptor, format: wgpu::TextureFormat) -> bool {
    &&& pipeline.vertex_entry_point@ == "vs_main"@
    &&& pipeline.fragment_entry_point@ == "fs_main"@
    &&& pipeline.buffers.len() == 2
    &&& pipeline.buffers[0].array_stride == POSITION_STRIDE
    &&& pipeline.buffers[0].step_mode == VertexStepMode::Vertex
    &&& pipeline.buffers[0].attributes@ == position_attributes()
    &&& pipeline.buffers[1].array_stride == INSTANCE_STRIDE
    &&& pipeline.buffers[1].step_mode == VertexStepMode::Instance
    &&& pipeline.buffers[1].attributes@ == instance_attributes()
    &&& pipeline.format == format
    &&& pipeline.blend == BlendMode::AlphaBlending
    &&& pipeline.uniform == (UniformBinding {
        group: 0,
        binding: 0,
        vertex: true,
        fragment: true,
        size: GLOBALS_SIZE,
    })
}

/// The widget every surface renderer starts with: a red rectangle of 100 by
/// 30 at the origin, with square corners.
pub open spec fn default_widget() -> WidgetInstance {
    WidgetInstance {
        position: Position(0, 0),
        size: Size(0x42c8_0000, 0x41f0_0000),
        color: Color(0x3f80_0000, 0, 0, 0x3f80_0000),
        radius: 0,
    }
}

/// The colour a frame is cleared to: fully transparent.
pub open spec fn transparent() -> Color {
    Color(0, 0, 0, 0)
}

/// The capacity of a widget buffer that held `capacity` records once it has
/// to hold `needed`: unchanged while they fit, else doubled, or `needed` if
/// that is more; never beyond what a `u32` counts.
pub open spec fn grown_capacity(capacity: nat, needed: nat) -> nat {
    if needed <= capacity {
        capacity
    } else if needed <= 2 * capacity {
        if 2 * capacity <= u32::MAX {
            2 * capacity
        } else {
            u32::MAX as nat
        }
    } else {
        needed
    }
}

/// What a surface renderer stands for: the configuration of its surface and
/// the contents of its buffers.
pub struct SurfaceRendererView {
    pub config: SurfaceConfiguration,
    pub pipeline: PipelineDescriptor,
    pub globals: Globals,
    pub widgets: Seq<WidgetInstance>,
    pub widget_capacity: nat,
    pub widget_count: nat,
    pub num_indices: nat,
}

impl SurfaceRendererView {
    /// The surface has an area, the pipeline draws widgets in the surface's
    /// format, the widget buffer has room for every widget and the draw
    /// covers exactly the quad and the widgets.
    pub open spec fn wf(self) -> bool {
        &&& self.config.width > 0
        &&& self.config.height > 0
        &&& draws_widgets(self.pipeline, self.config.format)
        &&& self.widget_count == self.widgets.len()
        &&& self.widget_count <= self.widget_capacity <= u32::MAX
        &&& INSTANCE_STRIDE * self.widgets.len() <= usize::MAX
        &&& self.num_indices == QUAD_INDEX_COUNT
    }

    /// A renderer as it is created for a surface configured with `config`
    /// and drawn to by `pipeline`: one default widget in a buffer with room
    /// for one, and a uniform buffer that nothing has been written to.
    pub open spec fn created(
        config: SurfaceConfiguration,
        pipeline: PipelineDescriptor,
    ) -> SurfaceRendererView {
        SurfaceRendererView {
            config,
            pipeline,
            globals: Globals { resolution: Size(0, 0) },
            widgets: seq![default_widget()],
            widget_capacity: INITIAL_WIDGET_CAPACITY as nat,
            widget_count: 1,
            num_indices: QUAD_INDEX_COUNT as nat,
        }
    }

    /// The renderer after its surface was given a new size.
    pub open spec fn resized(self, width: u32, height: u32) -> SurfaceRendererView {
        SurfaceRendererView {
            config: SurfaceConfiguration { width, height, ..self.config },
            globals: Globals::of_size(width, height),
            ..self
        }
    }

    /// The renderer after its widgets were replaced.
    pub open spec fn with_widgets(self, widgets: Seq<WidgetInstance>) -> SurfaceRendererView {
        SurfaceRendererView {
            widgets,
            widget_count: widgets.len(),
            widget_capacity: grown_capacity(self.widget_capacity, widgets.len()),
            ..self
        }
    }

    /// The frame the renderer draws.
    pub open spec fn frame(self) -> FramePlan {
        FramePlan {
            clear: transparent(),
            vertex_slot: 0,
            instance_slot: 1,
            index_format: IndexFormat::Uint16,
            bind_group: 0,
            globals: self.globals,
            draw: DrawIndexed {
                first_index: 0,
                index_count: self.num_indices as u32,
                base_vertex: 0,
                first_instance: 0,
                instance_count: self.widget_count as u32,
            },
        }
    }

    /// What rendering comes to once the surface has answered the request
    /// for a texture: the frame if one was acquired, else the failure.
    pub open spec fn rendered(self, acquired: Result<(), SurfaceError>) -> Result<
        FramePlan,
        RenderError,
    > {
        match acquired {
            Ok(_) => Ok(self.frame()),
            Err(error) => Err(RenderError::of_acquire(error)),
        }
    }

    /// What the widget buffer holds.
    pub open spec fn widget_bytes(self) -> Seq<u8> {
        words_bytes(instances_words(self.widgets))
    }
}

/// The proof that graphics negotiation succeeded; surface renderers are made
/// through it.
#[derive(Debug)]
pub struct Renderer {
    sealed: (),
}

/// The renderer of one surface.
#[derive(Debug)]
pub struct SurfaceRenderer {
    config: SurfaceConfiguration,
    pipeline: PipelineDescriptor,
    globals: Globals,
    widgets: Vec<WidgetInstance>,
    widget_capacity: u32,
    widget_count: u32,
    num_indices: u32,
}

impl View for SurfaceRenderer {
    type V = SurfaceRendererView;

    closed spec fn view(&self) -> SurfaceRendererView {
        SurfaceRendererView {
            config: self.config,
            pipeline: self.pipeline,
            globals: self.globals,
            widgets: self.widgets@,
            widget_capacity: self.widget_capacity as nat,
            widget_count: self.widget_count as nat,
            num_indices: self.num_indices as nat,
        }
    }
}

impl Renderer {
    /// Concludes graphics negotiation. `adapter_found` says whether the
    /// platform offered an adapter, `device_created` whether that adapter
    /// gave a device; without an adapter no device is asked for and the
    /// second answer is not looked at.
    pub fn new(adapter_found: bool, device_created: bool) -> (renderer: Result<
        Renderer,
        RenderError,
    >)
        ensures
            renderer is Ok <==> adapter_found && device_created,
            !adapter_found ==> renderer == Err::<Renderer, RenderError>(
                RenderError::AdapterUnavailable,
            ),
            adapter_found && !device_created ==> renderer == Err::<Renderer, RenderError>(
                RenderError::DeviceCreationFailed,
            ),
    {
        if !adapter_found {
            Err(RenderError::AdapterUnavailable)
        } else if !device_created {
            Err(RenderError::DeviceCreationFailed)
        } else {
            Ok(Renderer { sealed: () })
        }
    }

    /// The pipeline that draws widgets into targets of `format`.
    pub fn create_pipeline(&self, format: wgpu::TextureFormat) -> (pipeline: PipelineDescriptor)
        ensures
            draws_widgets(pipeline, format),
    {
        let mut buffers: Vec<VertexBufferLayout> = Vec::new();
        buffers.push(Position::descriptor());
        buffers.push(WidgetInstance::descriptor());
        PipelineDescriptor {
            vertex_entry_point: "vs_main",
            fragment_entry_point: "fs_main",
            buffers,
            format,
            blend: BlendMode::AlphaBlending,
            uniform: UniformBinding {
                group: 0,
                binding: 0,
                vertex: true,
                fragment: true,
                size: GLOBALS_SIZE,
            },
        }
    }

    /// The renderer of a surface of `width` by `height` pixels that offers
    /// `capabilities`: configured with the choice
    /// [`SurfaceCapabilities::configuration`] makes, with the pipeline for
    /// the chosen format, holding one default widget, its uniform buffer not
    /// yet written.
    pub fn create_surface_renderer(
        &self,
        capabilities: &SurfaceCapabilities,
        width: u32,
        height: u32,
    ) -> (renderer: SurfaceRenderer)
        requires
            capabilities.usable(),
            width > 0,
            height > 0,
        ensures
            capabilities.chooses(width, height, renderer@.config),
            renderer@ == SurfaceRendererView::created(renderer@.config, renderer@.pipeline),
            renderer@.wf(),
    {
        let config = capabilities.configuration(width, height);
        let pipeline = self.create_pipeline(config.format);
        let mut widgets: Vec<WidgetInstance> = Vec::new();
        widgets.push(
            WidgetInstance::new(
                0,
                0,
                0x42c8_0000,
                0x41f0_0000,
                Color(0x3f80_0000, 0, 0, 0x3f80_0000),
                0,
            ),
        );
        assert(widgets@ =~= seq![default_widget()]);
        SurfaceRenderer {
            config,
            pipeline,
            globals: Globals { resolution: Size(0, 0) },
            widgets,
            widget_capacity: INITIAL_WIDGET_CAPACITY,
            widget_count: 1,
            num_indices: QUAD_INDEX_COUNT,
        }
    }
}

impl SurfaceRenderer {
    /// The configuration of the surface.
    pub fn config(&self) -> (config: SurfaceConfiguration)
        ensures
            config == self@.config,
    {
        self.config
    }

    /// The pipeline frames are drawn with.
    pub fn pipeline(&self) -> (pipeline: &PipelineDescriptor)
        ensures
            *pipeline == self@.pipeline,
    {
        &self.pipeline
    }

    /// What the uniform buffer holds.
    pub fn globals(&self) -> (globals: Globals)
        ensures
            globals == self@.globals,
    {
        self.globals
    }

    /// The widgets the renderer draws, in buffer order.
    pub fn widgets(&self) -> (widgets: &Vec<WidgetInstance>)
        ensures
            widgets@ == self@.widgets,
    {
        &self.widgets
    }

    /// The number of widgets the renderer draws.
    pub fn widget_count(&self) -> (count: u32)
        ensures
            count == self@.widget_count,
    {
        self.widget_count
    }

    /// The number of records the widget buffer has room for.
    pub fn widget_capacity(&self) -> (capacity: u32)
        ensures
            capacity == self@.widget_capacity,
    {
        self.widget_capacity
    }

    /// What the buffers hold: the quad's corners and indices, the widget
    /// records, and room for one globals record.
    pub fn buffers(&self) -> (contents: BufferContents)
        requires
            self@.wf(),
        ensures
            contents.vertices@ == words_bytes(positions_words(quad_corners())),
            contents.indices@ == indices_bytes(quad_triangles()),
            contents.widgets@ == self@.widget_bytes(),
            contents.widget_capacity == self@.widget_capacity,
            contents.globals_size == GLOBALS_SIZE,
    {
        let vertices = quad_vertices();
        let indices = quad_indices();
        BufferContents {
            vertices: encode_positions(&vertices),
            indices: encode_indices(&indices),
            widgets: encode_instances(&self.widgets),
            widget_capacity: self.widget_capacity,
            globals_size: GLOBALS_SIZE,
        }
    }

    /// Gives the surface a new size: the configuration takes the size and
    /// the uniform takes the resolution. The caller applies the returned
    /// configuration and writes the returned bytes to the uniform buffer.
    pub fn set_size(&mut self, width: u32, height: u32) -> (resize: Resize)
        requires
            old(self)@.wf(),
            width > 0,
            height > 0,
        ensures
            final(self)@ == old(self)@.resized(width, height),
            final(self)@.wf(),
            resize.config == final(self)@.config,
            resize.uniform@ == final(self)@.globals.bytes(),
    {
        self.config.width = width;
        self.config.height = height;
        let new_globals = Globals::for_size(width, height);
        self.globals = new_globals;
        Resize { config: self.config, uniform: new_globals.to_bytes() }
    }

    /// Replaces the widgets. The widget buffer grows if it has to; the
    /// caller reallocates it if told so and writes the returned bytes.
    pub fn set_widgets(&mut self, widgets: Vec<WidgetInstance>) -> (upload: InstanceUpload)
        requires
            old(self)@.wf(),
            widgets.len() <= u32::MAX,
            INSTANCE_STRIDE * widgets.len() <= usize::MAX,
        ensures
            final(self)@ == old(self)@.with_widgets(widgets@),
            final(self)@.wf(),
            upload.reallocate <==> widgets.len() > old(self)@.widget_capacity,
            upload.capacity == final(self)@.widget_capacity,
            upload.contents@ == final(self)@.widget_bytes(),
    {
        let needed: u32 = widgets.len() as u32;
        let reallocate = needed > self.widget_capacity;
        if reallocate {
            let doubled: u32 = if self.widget_capacity <= u32::MAX / 2 {
                2 * self.widget_capacity
            } else {
                u32::MAX
            };
            self.widget_capacity = if needed <= doubled {
                doubled
            } else {
                needed
            };
        }
        let contents = encode_instances(&widgets);
        self.widgets = widgets;
        self.widget_count = needed;
        InstanceUpload { reallocate, capacity: self.widget_capacity, contents }
    }

    /// Decides what a frame does, once the surface has answered the request
    /// for a texture to draw on. With a texture in hand the caller clears
    /// it, encodes the returned draw, submits and presents; without one the
    /// failure is reported and nothing is drawn.
    pub fn render(&self, acquired: Result<(), SurfaceError>) -> (outcome: Result<
        FramePlan,
        RenderError,
    >)
        requires
            self@.wf(),
        ensures
            outcome == self@.rendered(acquired),
    {
        match acquired {
            Ok(_) => Ok(
                FramePlan {
                    clear: Color(0, 0, 0, 0),
                    vertex_slot: 0,
                    instance_slot: 1,
                    index_format: IndexFormat::Uint16,
                    bind_group: 0,
                    globals: self.globals,
                    draw: DrawIndexed {
                        first_index: 0,
                        index_count: self.num_indices,
                        base_vertex: 0,
                        first_instance: 0,
                        instance_count: self.widget_count,
                    },
                },
            ),
            Err(error) => Err(RenderError::from_acquire(error)),
        }
    }
}

/// The default widget is 100 by 30 and opaque red.
pub proof fn lemma_default_widget()
    ensures
        default_widget().size == Size(
            crate::float32::f32_bits(100) as u32,
            crate::float32::f32_bits(30) as u32,
        ),
        default_widget().color == Color(
            crate::float32::f32_bits(1) as u32,
            0,
            0,
            crate::float32::f32_bits(1) as u32,
        ),
{
    lemma_f32_bits_examples();
}

/// A renderer that was given a size and then acquires a texture draws one
/// frame, with the uniform holding that size as its resolution.
pub proof fn lemma_resize_then_render(renderer: SurfaceRendererView, width: u32, height: u32)
    requires
        renderer.wf(),
        width > 0,
        height > 0,
    ensures
        renderer.resized(width, height).wf(),
        renderer.resized(width, height).rendered(Ok(())) is Ok,
        renderer.resized(width, height).rendered(Ok(())).unwrap().globals == Globals::of_size(
            width,
            height,
        ),
{
}

/// Every frame draws the six indices of the quad once per widget, whatever
/// the number of widgets; with none the draw covers no instance.
pub proof fn lemma_draw_covers_widgets(renderer: SurfaceRendererView)
    requires
        renderer.wf(),
    ensures
        renderer.frame().draw == (DrawIndexed {
            first_index: 0,
            index_count: 6,
            base_vertex: 0,
            first_instance: 0,
            instance_count: renderer.widgets.len() as u32,
        }),
        renderer.frame().draw.instance_count == renderer.widgets.len(),
{
}

/// Replacing the widgets keeps them within the buffer's capacity, which
/// never shrinks.
pub proof fn lemma_capacity_holds_widgets(
    renderer: SurfaceRendererView,
    widgets: Seq<WidgetInstance>,
)
    requires
        renderer.wf(),
        widgets.len() <= u32::MAX,
        INSTANCE_STRIDE * widgets.len() <= usize::MAX,
    ensures
        renderer.with_widgets(widgets).wf(),
        renderer.with_widgets(widgets).widget_capacity >= renderer.widget_capacity,
        renderer.with_widgets(widgets).widget_capacity >= widgets.len(),
{
}

} // verus!
