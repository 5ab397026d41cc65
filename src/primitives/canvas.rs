use vstd::prelude::*;

use crate::draw_context::{DrawMode, DrawModeParams, DrawableBuilder, DrawableLayout, StepMode, VertexAttribute};

verus! {

/// Vertices of the triangle that covers the whole viewport.
pub const CANVAS_VERTEX_COUNT: u32 = 3;

/// A single triangle large enough to cover the viewport, for shaders that
/// paint every pixel: positions at shader location 0, no uniform, no blending.
pub fn canvas_layout<V, U, B>(geometry: V, vertex_stride: u64) -> (r: DrawableLayout<V, U, B>)
    ensures
        r.draw_mode == (DrawMode::Direct { vertex_count: CANVAS_VERTEX_COUNT }),
        r.vertex_buffers@ == seq![
            VertexAttribute { shader_location: 0, step_mode: StepMode::Vertex, array_stride: vertex_stride, buffer: geometry },
        ],
        r.bind_groups@.len() == 0,
        r.instance_count == 1,
        r.blend_option is None,
{
    let mut builder = DrawableBuilder::new(&DrawModeParams::Direct { vertex_count: CANVAS_VERTEX_COUNT });
    let added = builder.add_attribute(0, StepMode::Vertex, vertex_stride, geometry);
    assert(added is Ok);
    builder.build()
}

} // verus!
