//! What a surface offers, and the configuration chosen from it.

use vstd::prelude::*;

verus! {

/// `wgpu::TextureFormat`, the pixel format of a texture. The library passes
/// formats on and asks `wgpu` one question about them; it never looks inside.
#[verifier::external_type_specification]
#[verifier::external_body]
pub struct ExTextureFormat(wgpu::TextureFormat);

/// Whether `wgpu` classifies a texture format as sRGB-encoded.
pub uninterp spec fn srgb_encoded(format: wgpu::TextureFormat) -> bool;

/// Calls `wgpu::TextureFormat::is_srgb`, which compares the format with the
/// one it becomes when its sRGB suffix is stripped. The answer depends on the
/// format alone; the contract gives it the name `srgb_encoded` and claims
/// nothing else.
#[verifier::external_body]
fn format_is_srgb(format: &wgpu::TextureFormat) -> (srgb: bool)
    ensures
        srgb == srgb_encoded(*format),
{
    format.is_srgb()
}

/// How the compositor treats the alpha channel of a surface.
#[derive(Copy, Clone, Debug, PartialEq, Eq, Structural)]
pub enum CompositeAlphaMode {
    /// The surface picks between `Opaque` and `Inherit`.
    Auto,
    /// Alpha is ignored.
    Opaque,
    /// Colours arrive already multiplied by alpha.
    PreMultiplied,
    /// The compositor multiplies colours by alpha.
    PostMultiplied,
    /// The platform decides.
    Inherit,
}

/// When finished frames reach the screen.
#[derive(Copy, Clone, Debug, PartialEq, Eq, Structural)]
pub enum PresentMode {
    AutoVsync,
    AutoNoVsync,
    Fifo,
    FifoRelaxed,
    Immediate,
    Mailbox,
}

/// What a surface supports on the negotiated adapter, each list in the
/// adapter's order of preference.
#[derive(Clone, Debug, PartialEq, Eq)]
pub struct SurfaceCapabilities {
    pub formats: Vec<wgpu::TextureFormat>,
    pub present_modes: Vec<PresentMode>,
    pub alpha_modes: Vec<CompositeAlphaMode>,
}

/// How a surface is set up for presentation.
#[derive(Copy, Clone, Debug, PartialEq, Eq)]
pub struct SurfaceConfiguration {
    /// Bit set of the texture usages asked for; see [`RENDER_ATTACHMENT`].
    pub usage: u32,
    pub format: wgpu::TextureFormat,
    pub width: u32,
    pub height: u32,
    pub present_mode: PresentMode,
    pub desired_maximum_frame_latency: u32,
    pub alpha_mode: CompositeAlphaMode,
}

/// The usage bit of a texture that render passes write to.
pub const RENDER_ATTACHMENT: u32 = 16;

/// Frames the presentation queue may hold.
pub const FRAME_LATENCY: u32 = 2;

/// `i` is where the format to use stands, given for each offered format
/// whether it is sRGB-encoded: at the first sRGB one, or at the front if
/// there is none.
pub open spec fn preferred(srgb: Seq<bool>, i: int) -> bool {
    &&& 0 <= i < srgb.len()
    &&& forall|j: int| 0 <= j < i ==> !srgb[j]
    &&& srgb[i] || (i == 0 && forall|j: int| 0 <= j < srgb.len() ==> !srgb[j])
}

/// For each format whether it is sRGB-encoded.
pub open spec fn srgb_flags(formats: Seq<wgpu::TextureFormat>) -> Seq<bool> {
    Seq::new(formats.len(), |i: int| srgb_encoded(formats[i]))
}

/// The alpha mode to use when `modes` are offered: pre-multiplied if it is
/// among them, else the surface's own choice.
pub open spec fn preferred_alpha(modes: Seq<CompositeAlphaMode>) -> CompositeAlphaMode {
    if modes.contains(CompositeAlphaMode::PreMultiplied) {
        CompositeAlphaMode::PreMultiplied
    } else {
        CompositeAlphaMode::Auto
    }
}

/// At most one position is the preferred one.
pub proof fn lemma_preferred_unique(srgb: Seq<bool>, i: int, j: int)
    requires
        preferred(srgb, i),
        preferred(srgb, j),
    ensures
        i == j,
{
}

/// Position of the format to use, given for each offered format whether it
/// is sRGB-encoded: the first sRGB one, else the first offered.
pub fn preferred_format_index(srgb: &Vec<bool>) -> (index: usize)
    requires
        srgb.len() > 0,
    ensures
        preferred(srgb@, index as int),
{
    let mut i: usize = 0;
    while i < srgb.len()
        invariant
            i <= srgb.len(),
            forall|j: int| 0 <= j < i ==> !srgb[j],
        decreases srgb.len() - i,
    {
        if srgb[i] {
            return i;
        }
        i += 1;
    }
    0
}

/// The format to render in: the first offered format that `wgpu` classifies
/// as sRGB-encoded, else the first offered.
pub fn select_format(formats: &Vec<wgpu::TextureFormat>) -> (chosen: wgpu::TextureFormat)
    requires
        formats.len() > 0,
    ensures
        exists|i: int| #[trigger] preferred(srgb_flags(formats@), i) && chosen == formats[i],
{
    let mut flags: Vec<bool> = Vec::new();
    let mut i: usize = 0;
    while i < formats.len()
        invariant
            i <= formats.len(),
            flags.len() == i,
            forall|j: int| 0 <= j < i ==> flags[j] == srgb_encoded(formats[j]),
        decreases formats.len() - i,
    {
        flags.push(format_is_srgb(&formats[i]));
        i += 1;
    }
    assert(flags@ =~= srgb_flags(formats@));
    let index = preferred_format_index(&flags);
    formats[index]
}

/// The alpha mode to composite with: pre-multiplied if offered, else the
/// surface's own choice.
pub fn select_alpha_mode(modes: &Vec<CompositeAlphaMode>) -> (chosen: CompositeAlphaMode)
    ensures
        chosen == preferred_alpha(modes@),
{
    let mut i: usize = 0;
    while i < modes.len()
        invariant
            i <= modes.len(),
            forall|j: int| 0 <= j < i ==> modes[j] != CompositeAlphaMode::PreMultiplied,
        decreases modes.len() - i,
    {
        if modes[i] == CompositeAlphaMode::PreMultiplied {
            return CompositeAlphaMode::PreMultiplied;
        }
        i += 1;
    }
    CompositeAlphaMode::Auto
}

/// The presentation mode to use: the first offered.
pub fn select_present_mode(modes: &Vec<PresentMode>) -> (chosen: PresentMode)
    requires
        modes.len() > 0,
    ensures
        chosen == modes[0],
{
    modes[0]
}

impl SurfaceCapabilities {
    /// Whether a configuration can be chosen: a format and a presentation
    /// mode are on offer.
    pub open spec fn usable(self) -> bool {
        self.formats.len() > 0 && self.present_modes.len() > 0
    }

    /// `config` is the configuration chosen from these capabilities for a
    /// surface of `width` by `height` pixels.
    pub open spec fn chooses(self, width: u32, height: u32, config: SurfaceConfiguration) -> bool {
        &&& config.usage == RENDER_ATTACHMENT
        &&& exists|i: int| #[trigger]
            preferred(srgb_flags(self.formats@), i) && config.format == self.formats[i]
        &&& config.width == width
        &&& config.height == height
        &&& config.present_mode == self.present_modes[0]
        &&& config.desired_maximum_frame_latency == FRAME_LATENCY
        &&& config.alpha_mode == preferred_alpha(self.alpha_modes@)
    }

    /// Whether a configuration can be chosen.
    pub fn is_usable(&self) -> (yes: bool)
        ensures
            yes == self.usable(),
    {
        self.formats.len() > 0 && self.present_modes.len() > 0
    }

    /// The configuration for a surface of `width` by `height` pixels that
    /// render passes draw to: the preferred format and alpha mode, the first
    /// presentation mode, and room for two frames in flight.
    pub fn configuration(&self, width: u32, height: u32) -> (config: SurfaceConfiguration)
        requires
            self.usable(),
        ensures
            self.chooses(width, height, config),
    {
        SurfaceConfiguration {
            usage: RENDER_ATTACHMENT,
            format: select_format(&self.formats),
            width,
            height,
            present_mode: select_present_mode(&self.present_modes),
            desired_maximum_frame_latency: FRAME_LATENCY,
            alpha_mode: select_alpha_mode(&self.alpha_modes),
        }
    }
}

/// Two configurations chosen from the same capabilities for the same size
/// are the same configuration.
pub proof fn lemma_choice_unique(
    capabilities: SurfaceCapabilities,
    width: u32,
    height: u32,
    a: SurfaceConfiguration,
    b: SurfaceConfiguration,
)
    requires
        capabilities.chooses(width, height, a),
        capabilities.chooses(width, height, b),
    ensures
        a == b,
{
    let flags = srgb_flags(capabilities.formats@);
    let i = choose|i: int| #[trigger] preferred(flags, i) && a.format == capabilities.formats[i];
    let j = choose|j: int| #[trigger] preferred(flags, j) && b.format == capabilities.formats[j];
    lemma_preferred_unique(flags, i, j);
}

} // verus!
