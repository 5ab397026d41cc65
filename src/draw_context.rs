use vstd::prelude::*;

mod drawable;

pub use drawable::{
    bindings_map, bindings_sorted, group_map, render_sequence, DrawPlan, DrawableBuilder,
    DrawableError, DrawableLayout, RenderCommand, StepMode, UniformBinding, VertexAttribute,
};

verus! {

/// Size in pixels of the surface that is drawn to.
#[derive(Clone, Copy, Debug, PartialEq, Eq, Structural)]
pub struct Dimensions {
    pub width: u32,
    pub height: u32,
}

/// Whether render targets are multisampled, and with how many samples.
#[derive(Clone, Copy, Debug, PartialEq, Eq, Structural)]
pub struct MultiSampleConfig {
    multisample_enabled: bool,
    multisample_count: u32,
}

/// Multisampling is on by default.
pub const DEFAULT_MULTISAMPLE_ENABLED: bool = true;

/// Sample count used when multisampling is on by default.
pub const DEFAULT_MULTISAMPLE_COUNT: u32 = 4;

impl MultiSampleConfig {
    pub closed spec fn enabled(&self) -> bool {
        self.multisample_enabled
    }

    pub closed spec fn requested_count(&self) -> u32 {
        self.multisample_count
    }

    /// Sample count that textures and pipelines use: the requested count when
    /// multisampling is on, a single sample otherwise.
    pub open spec fn sample_count(&self) -> u32 {
        if self.enabled() {
            self.requested_count()
        } else {
            1
        }
    }

    pub fn new(multisample_enabled: bool, multisample_count: u32) -> (r: Self)
        ensures
            r.enabled() == multisample_enabled,
            r.requested_count() == multisample_count,
    {
        MultiSampleConfig { multisample_enabled, multisample_count }
    }

    pub fn get_multisample_count(&self) -> (r: u32)
        ensures
            r == self.sample_count(),
    {
        match self.multisample_enabled {
            true => self.multisample_count,
            false => 1,
        }
    }

    pub fn is_multisample_enabled(&self) -> (r: bool)
        ensures
            r == self.enabled(),
    {
        self.multisample_enabled
    }
}

impl Default for MultiSampleConfig {
    fn default() -> (r: Self)
        ensures
            r.enabled() == DEFAULT_MULTISAMPLE_ENABLED,
            r.requested_count() == DEFAULT_MULTISAMPLE_COUNT,
    {
        MultiSampleConfig {
            multisample_enabled: DEFAULT_MULTISAMPLE_ENABLED,
            multisample_count: DEFAULT_MULTISAMPLE_COUNT,
        }
    }
}


/// Width of the indices of an index buffer.
#[derive(Clone, Copy, Debug, PartialEq, Eq, Structural)]
pub enum IndexFormat {
    Uint16,
    Uint32,
}

/// Little-endian bytes of a `u16`.
pub open spec fn u16_le_bytes(x: u16) -> Seq<u8> {
    seq![(x % 256) as u8, (x / 256) as u8]
}

/// Little-endian bytes of a `u32`.
pub open spec fn u32_le_bytes(x: u32) -> Seq<u8> {
    seq![(x % 256) as u8, ((x / 256) % 256) as u8, ((x / 65536) % 256) as u8, (x / 16777216) as u8]
}

/// `bytes` holds the values of `words` one after the other, two bytes each,
/// in little-endian order when `little` holds and in big-endian order otherwise.
pub open spec fn encodes_u16s(words: Seq<u16>, bytes: Seq<u8>, little: bool) -> bool {
    &&& bytes.len() == 2 * words.len()
    &&& forall|i: int|
        0 <= i < words.len() ==> #[trigger] bytes.subrange(2 * i, 2 * i + 2) == if little {
            u16_le_bytes(words[i])
        } else {
            u16_le_bytes(words[i]).reverse()
        }
}

/// `bytes` holds the values of `words` one after the other, four bytes each,
/// in little-endian order when `little` holds and in big-endian order otherwise.
pub open spec fn encodes_u32s(words: Seq<u32>, bytes: Seq<u8>, little: bool) -> bool {
    &&& bytes.len() == 4 * words.len()
    &&& forall|i: int|
        0 <= i < words.len() ==> #[trigger] bytes.subrange(4 * i, 4 * i + 4) == if little {
            u32_le_bytes(words[i])
        } else {
            u32_le_bytes(words[i]).reverse()
        }
}

/// Relies on `bytemuck::cast_slice`: it hands back the memory of the `u32`
/// values as bytes, which holds each value in the target's byte order.
#[verifier::external_body]
fn u32_slice_bytes(words: &[u32]) -> (r: &[u8])
    ensures
        encodes_u32s(words@, r@, true) || encodes_u32s(words@, r@, false),
{
    bytemuck::cast_slice(words)
}

/// Relies on `bytemuck::cast_slice`: it hands back the memory of the `u16`
/// values as bytes, which holds each value in the target's byte order.
#[verifier::external_body]
fn u16_slice_bytes(words: &[u16]) -> (r: &[u8])
    ensures
        encodes_u16s(words@, r@, true) || encodes_u16s(words@, r@, false),
{
    bytemuck::cast_slice(words)
}

/// Indices of an indexed draw, in one of the two widths the GPU reads.
pub enum IndexData<'a> {
    U32(&'a [u32]),
    U16(&'a [u16]),
}

impl IndexData<'_> {
    /// Number of indices held.
    pub open spec fn index_count(&self) -> nat {
        match self {
            IndexData::U32(data) => data@.len(),
            IndexData::U16(data) => data@.len(),
        }
    }

    pub open spec fn format_spec(&self) -> IndexFormat {
        match self {
            IndexData::U32(_) => IndexFormat::Uint32,
            IndexData::U16(_) => IndexFormat::Uint16,
        }
    }

    pub fn format(&self) -> (r: IndexFormat)
        ensures
            r == self.format_spec(),
    {
        match self {
            IndexData::U32(_) => IndexFormat::Uint32,
            IndexData::U16(_) => IndexFormat::Uint16,
        }
    }

    /// Number of indices, as the GPU's `u32` count.
    pub fn size(&self) -> (r: u32)
        ensures
            r == self.index_count() as u32,
    {
        match self {
            IndexData::U32(data) => data.len() as u32,
            IndexData::U16(data) => data.len() as u32,
        }
    }

    /// The indices as the bytes of an index buffer.
    pub fn data(&self) -> (r: &[u8])
        ensures
            match self {
                IndexData::U32(d) => encodes_u32s(d@, r@, true) || encodes_u32s(d@, r@, false),
                IndexData::U16(d) => encodes_u16s(d@, r@, true) || encodes_u16s(d@, r@, false),
            },
    {
        match self {
            IndexData::U32(data) => u32_slice_bytes(data),
            IndexData::U16(data) => u16_slice_bytes(data),
        }
    }
}

/// How a drawable is to be drawn, as its creator asks for it.
pub enum DrawModeParams<'a> {
    Direct { vertex_count: u32 },
    Indexed { index_data: IndexData<'a> },
}

/// How a drawable is drawn: straight from its vertex buffers, or through an
/// index buffer of the given format and length.
#[derive(Clone, Copy, Debug, PartialEq, Eq, Structural)]
pub enum DrawMode {
    Direct { vertex_count: u32 },
    Indexed { format: IndexFormat, index_count: u32 },
}

impl DrawMode {
    pub open spec fn of_params(params: &DrawModeParams) -> DrawMode {
        match params {
            DrawModeParams::Direct { vertex_count } => DrawMode::Direct { vertex_count: *vertex_count },
            DrawModeParams::Indexed { index_data } => DrawMode::Indexed {
                format: index_data.format_spec(),
                index_count: index_data.index_count() as u32,
            },
        }
    }

    pub fn from_params(params: &DrawModeParams) -> (r: DrawMode)
        ensures
            r == DrawMode::of_params(params),
    {
        match params {
            DrawModeParams::Direct { vertex_count } => DrawMode::Direct { vertex_count: *vertex_count },
            DrawModeParams::Indexed { index_data } => DrawMode::Indexed {
                format: index_data.format(),
                index_count: index_data.size(),
            },
        }
    }
}

/// Size and sample count of a render-attachment texture to create.
#[derive(Clone, Copy, Debug, PartialEq, Eq, Structural)]
pub struct TextureRequest {
    pub width: u32,
    pub height: u32,
    pub sample_count: u32,
}

/// Where the color output of a render pass goes.
#[derive(Clone, Copy, Debug, PartialEq, Eq, Structural)]
pub enum ColorTarget {
    /// Straight into the surface texture.
    Surface,
    /// Into the multisample texture, resolved into the surface texture.
    MultisampleResolvedToSurface,
}

/// Index of the surface format to configure, given for each format the
/// surface supports whether it is sRGB: the first sRGB one, else the first
/// one. `None` when the surface supports no format at all.
pub fn preferred_surface_format(is_srgb: &Vec<bool>) -> (r: Option<usize>)
    ensures
        is_srgb@.len() == 0 <==> r is None,
        r matches Some(i) ==> i < is_srgb@.len() && if exists|j: int| 0 <= j < is_srgb@.len() && is_srgb@[j] {
            is_srgb@[i as int] && forall|j: int| 0 <= j < i ==> !is_srgb@[j]
        } else {
            i == 0
        },
{
    let mut i: usize = 0;
    while i < is_srgb.len()
        invariant
            i <= is_srgb@.len(),
            forall|j: int| 0 <= j < i ==> !is_srgb@[j],
        decreases is_srgb@.len() - i,
    {
        if is_srgb[i] {
            return Some(i);
        }
        i = i + 1;
    }
    if is_srgb.len() == 0 {
        None
    } else {
        Some(0)
    }
}

/// The surface a context draws to: its size and multisampling, and from them
/// the textures it needs and where a render pass writes.
#[derive(Clone, Copy, Debug, PartialEq, Eq, Structural)]
pub struct SurfaceState {
    pub size: Dimensions,
    pub multisample: MultiSampleConfig,
}

impl SurfaceState {
    /// A surface of the requested size, or of the window's size when none is
    /// requested, with the default multisampling.
    pub fn new(requested: Option<Dimensions>, window_size: Dimensions) -> (r: Self)
        ensures
            r.size == match requested {
                Some(d) => d,
                None => window_size,
            },
            r.multisample.enabled() == DEFAULT_MULTISAMPLE_ENABLED,
            r.multisample.requested_count() == DEFAULT_MULTISAMPLE_COUNT,
    {
        let size = match requested {
            Some(d) => d,
            None => window_size,
        };
        SurfaceState { size, multisample: MultiSampleConfig::default() }
    }

    pub fn resize(&mut self, width: u32, height: u32)
        ensures
            final(self).size == (Dimensions { width, height }),
            final(self).multisample == old(self).multisample,
    {
        self.size = Dimensions { width, height };
    }

    /// The depth texture: as large as the surface, with the pipeline's sample count.
    pub fn depth_texture(&self) -> (r: TextureRequest)
        ensures
            r == (TextureRequest {
                width: self.size.width,
                height: self.size.height,
                sample_count: self.multisample.sample_count(),
            }),
    {
        TextureRequest {
            width: self.size.width,
            height: self.size.height,
            sample_count: self.multisample.get_multisample_count(),
        }
    }

    /// The multisample color texture, needed only when multisampling is on.
    pub fn multisample_texture(&self) -> (r: Option<TextureRequest>)
        ensures
            self.multisample.enabled() ==> r == Some(
                TextureRequest {
                    width: self.size.width,
                    height: self.size.height,
                    sample_count: self.multisample.sample_count(),
                },
            ),
            !self.multisample.enabled() ==> r is None,
    {
        if self.multisample.is_multisample_enabled() {
            Some(
                TextureRequest {
                    width: self.size.width,
                    height: self.size.height,
                    sample_count: self.multisample.get_multisample_count(),
                },
            )
        } else {
            None
        }
    }

    /// Where a render pass writes its color output.
    pub fn color_target(&self) -> (r: ColorTarget)
        ensures
            r == if self.multisample.enabled() {
                ColorTarget::MultisampleResolvedToSurface
            } else {
                ColorTarget::Surface
            },
    {
        if self.multisample.is_multisample_enabled() {
            ColorTarget::MultisampleResolvedToSurface
        } else {
            ColorTarget::Surface
        }
    }
}

} // verus!
