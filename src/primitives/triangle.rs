use vstd::prelude::*;

use crate::draw_context::{group_map, DrawMode, DrawModeParams, DrawableBuilder, DrawableLayout, StepMode, VertexAttribute};

verus! {

/// Vertices of the triangle.
pub const TRIANGLE_VERTEX_COUNT: u32 = 3;

/// A triangle with a color per vertex: positions at shader location 0, colors
/// at location 1, its transform at binding 0 of group 0; no blending.
pub fn equilateral_triangle_layout<V, U, B>(
    geometry: V,
    colors: V,
    vertex_stride: u64,
    transform: U,
) -> (r: DrawableLayout<V, U, B>)
    ensures
        r.draw_mode == (DrawMode::Direct { vertex_count: TRIANGLE_VERTEX_COUNT }),
        r.vertex_buffers@ == seq![
            VertexAttribute { shader_location: 0, step_mode: StepMode::Vertex, array_stride: vertex_stride, buffer: geometry },
            VertexAttribute { shader_location: 1, step_mode: StepMode::Vertex, array_stride: vertex_stride, buffer: colors },
        ],
        r.bind_groups@.len() == 1,
        group_map(r.bind_groups@, 0) == map![0u32 => transform],
        r.instance_count == 1,
        r.blend_option is None,
{
    let mut builder = DrawableBuilder::new(&DrawModeParams::Direct { vertex_count: TRIANGLE_VERTEX_COUNT });
    let added = builder.add_attribute(0, StepMode::Vertex, vertex_stride, geometry);
    assert(added is Ok);
    let added = builder.add_attribute(1, StepMode::Vertex, vertex_stride, colors);
    assert(added is Ok);
    builder.add_uniform(0, 0, transform);
    let r = builder.build();
    assert(group_map(r.bind_groups@, 0) =~= map![0u32 => transform]);
    r
}

} // verus!
