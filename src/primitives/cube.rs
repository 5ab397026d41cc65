use vstd::prelude::*;

use crate::draw_context::{
    group_map, DrawMode, DrawModeParams, DrawableBuilder, DrawableLayout, IndexData, IndexFormat,
    StepMode, VertexAttribute,
};

verus! {

/// How a cube is drawn.
#[derive(Clone, Copy, Debug, PartialEq, Eq, Structural)]
pub struct CubeOptions {
    /// Blend the cube with what is behind it, by the blend constant.
    pub with_alpha: bool,
}

impl Default for CubeOptions {
    fn default() -> (r: Self)
        ensures
            !r.with_alpha,
    {
        CubeOptions { with_alpha: false }
    }
}

/// Corners of the compact cube geometry.
pub const CUBE_CORNER_COUNT: u16 = 8;

/// Indices that draw the compact cube, two triangles per face.
pub const CUBE_INDEX_COUNT: usize = 36;

/// Vertices of the cube geometry with one copy of each corner per triangle.
pub const CUBE_VERTEX_COUNT: u32 = 36;

/// Vertices per face: two triangles.
pub const VERTICES_PER_FACE: usize = 6;

/// Triangles of the compact cube, over its 8 corners: front, back, top,
/// bottom, left and right, two each.
pub open spec fn cube_index_seq() -> Seq<u16> {
    seq![
        0, 2, 1, 0, 3, 2,
        5, 7, 4, 5, 6, 7,
        4, 1, 5, 4, 0, 1,
        6, 3, 7, 6, 2, 3,
        7, 0, 4, 7, 3, 0,
        2, 5, 1, 2, 6, 5,
    ]
}

pub fn cube_indices() -> (r: Vec<u16>)
    ensures
        r@ == cube_index_seq(),
        r@.len() == CUBE_INDEX_COUNT,
        forall|i: int| 0 <= i < r@.len() ==> #[trigger] r@[i] < CUBE_CORNER_COUNT,
{
    let r: Vec<u16> = vec![
        0, 2, 1, 0, 3, 2,
        5, 7, 4, 5, 6, 7,
        4, 1, 5, 4, 0, 1,
        6, 3, 7, 6, 2, 3,
        7, 0, 4, 7, 3, 0,
        2, 5, 1, 2, 6, 5,
    ];
    assert(r@ =~= cube_index_seq());
    r
}


/// An indexed cube over its 8 corners, with a color per corner: corner
/// positions at shader location 0 and colors at location 1, the camera at
/// binding 0 of group 0 and the cube's transform at binding 0 of group 1.
pub fn cube_with_colors_layout<V, U, B>(
    geometry: V,
    colors: V,
    vertex_stride: u64,
    camera: U,
    transform: U,
    alpha_blend: B,
    options: CubeOptions,
) -> (r: DrawableLayout<V, U, B>)
    ensures
        r.draw_mode == (DrawMode::Indexed { format: IndexFormat::Uint16, index_count: CUBE_INDEX_COUNT as u32 }),
        r.vertex_buffers@ == seq![
            VertexAttribute { shader_location: 0, step_mode: StepMode::Vertex, array_stride: vertex_stride, buffer: geometry },
            VertexAttribute { shader_location: 1, step_mode: StepMode::Vertex, array_stride: vertex_stride, buffer: colors },
        ],
        r.bind_groups@.len() == 2,
        group_map(r.bind_groups@, 0) == map![0u32 => camera],
        group_map(r.bind_groups@, 1) == map![0u32 => transform],
        r.instance_count == 1,
        r.blend_option == if options.with_alpha { Some(alpha_blend) } else { None },
{
    let indices = cube_indices();
    let mut builder = DrawableBuilder::new(
        &DrawModeParams::Indexed { index_data: IndexData::U16(indices.as_slice()) },
    );
    let added = builder.add_attribute(0, StepMode::Vertex, vertex_stride, geometry);
    assert(added is Ok);
    let added = builder.add_attribute(1, StepMode::Vertex, vertex_stride, colors);
    assert(added is Ok);
    builder.add_uniform(0, 0, camera);
    assert(builder.bindings(0) =~= map![0u32 => camera]);
    builder.add_uniform(1, 0, transform);
    assert(builder.bindings(0) == map![0u32 => camera]);
    if options.with_alpha {
        builder.set_blend_option(alpha_blend);
    }
    let r = builder.build();
    assert(group_map(r.bind_groups@, 0) =~= map![0u32 => camera]);
    assert(group_map(r.bind_groups@, 1) =~= map![0u32 => transform]);
    r
}

/// A cube drawn from one copy of each corner per triangle: positions at
/// shader location 0 and face normals at location 1, the camera at binding 0
/// of group 0, the transform at binding 0 and the normal matrix at binding 1
/// of group 1.
pub fn cube_with_normals_layout<V, U, B>(
    geometry: V,
    normals: V,
    vertex_stride: u64,
    camera: U,
    transform: U,
    normal_matrix: U,
    alpha_blend: B,
    options: CubeOptions,
) -> (r: DrawableLayout<V, U, B>)
    ensures
        r.draw_mode == (DrawMode::Direct { vertex_count: CUBE_VERTEX_COUNT }),
        r.vertex_buffers@ == seq![
            VertexAttribute { shader_location: 0, step_mode: StepMode::Vertex, array_stride: vertex_stride, buffer: geometry },
            VertexAttribute { shader_location: 1, step_mode: StepMode::Vertex, array_stride: vertex_stride, buffer: normals },
        ],
        r.bind_groups@.len() == 2,
        group_map(r.bind_groups@, 0) == map![0u32 => camera],
        group_map(r.bind_groups@, 1) == map![0u32 => transform, 1u32 => normal_matrix],
        r.instance_count == 1,
        r.blend_option == if options.with_alpha { Some(alpha_blend) } else { None },
{
    let mut builder = DrawableBuilder::new(&DrawModeParams::Direct { vertex_count: CUBE_VERTEX_COUNT });
    let added = builder.add_attribute(0, StepMode::Vertex, vertex_stride, geometry);
    assert(added is Ok);
    let added = builder.add_attribute(1, StepMode::Vertex, vertex_stride, normals);
    assert(added is Ok);
    builder.add_uniform(0, 0, camera);
    assert(builder.bindings(0) =~= map![0u32 => camera]);
    builder.add_uniform(1, 0, transform);
    assert(builder.bindings(0) == map![0u32 => camera]);
    builder.add_uniform(1, 1, normal_matrix);
    assert(builder.bindings(0) == map![0u32 => camera]);
    if options.with_alpha {
        builder.set_blend_option(alpha_blend);
    }
    let r = builder.build();
    assert(group_map(r.bind_groups@, 0) =~= map![0u32 => camera]);
    assert(group_map(r.bind_groups@, 1) =~= map![0u32 => transform, 1u32 => normal_matrix]);
    r
}

/// A row of `count` cubes drawn as instances: positions at shader location 0,
/// one offset per instance at location 1, the camera at binding 0 of group 0.
pub fn cube_with_normals_instances_layout<V, U, B>(
    geometry: V,
    offsets: V,
    vertex_stride: u64,
    camera: U,
    count: u32,
    alpha_blend: B,
    options: CubeOptions,
) -> (r: DrawableLayout<V, U, B>)
    ensures
        r.draw_mode == (DrawMode::Direct { vertex_count: CUBE_VERTEX_COUNT }),
        r.vertex_buffers@ == seq![
            VertexAttribute { shader_location: 0, step_mode: StepMode::Vertex, array_stride: vertex_stride, buffer: geometry },
            VertexAttribute { shader_location: 1, step_mode: StepMode::Instance, array_stride: vertex_stride, buffer: offsets },
        ],
        r.bind_groups@.len() == 1,
        group_map(r.bind_groups@, 0) == map![0u32 => camera],
        r.instance_count == count,
        r.blend_option == if options.with_alpha { Some(alpha_blend) } else { None },
{
    let mut builder = DrawableBuilder::new(&DrawModeParams::Direct { vertex_count: CUBE_VERTEX_COUNT });
    builder.set_instance_count(count);
    let added = builder.add_attribute(0, StepMode::Vertex, vertex_stride, geometry);
    assert(added is Ok);
    let added = builder.add_attribute(1, StepMode::Instance, vertex_stride, offsets);
    assert(added is Ok);
    builder.add_uniform(0, 0, camera);
    if options.with_alpha {
        builder.set_blend_option(alpha_blend);
    }
    let r = builder.build();
    assert(group_map(r.bind_groups@, 0) =~= map![0u32 => camera]);
    r
}

/// The x offset of each of `count` instanced cubes: two units apart,
/// starting at -4.
pub fn instance_offsets(count: u32) -> (r: Vec<i64>)
    ensures
        r@.len() == count,
        forall|i: int| 0 <= i < count ==> #[trigger] r@[i] == 2 * i - 4,
{
    let mut r: Vec<i64> = Vec::new();
    let mut i: u32 = 0;
    while i < count
        invariant
            i <= count,
            r@.len() == i,
            forall|j: int| 0 <= j < i ==> #[trigger] r@[j] == 2 * j - 4,
        decreases count - i,
    {
        r.push(2 * (i as i64) - 4);
        i = i + 1;
    }
    r
}

} // verus!
