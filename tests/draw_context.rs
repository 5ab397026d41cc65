use intro_cube_wgpu::draw_context::{
    preferred_surface_format, ColorTarget, Dimensions, DrawMode, DrawModeParams, DrawPlan,
    DrawableBuilder, DrawableError, IndexData, IndexFormat, MultiSampleConfig, RenderCommand,
    StepMode, SurfaceState, TextureRequest,
};

#[test]
fn index_data_u32_size_and_format() {
    let indices: [u32; 5] = [0, 1, 2, 2, 3];
    let data = IndexData::U32(&indices);
    assert_eq!(data.size(), 5);
    assert_eq!(data.format(), IndexFormat::Uint32);
}

#[test]
fn index_data_u16_size_and_format() {
    let indices: [u16; 3] = [7, 8, 9];
    let data = IndexData::U16(&indices);
    assert_eq!(data.size(), 3);
    assert_eq!(data.format(), IndexFormat::Uint16);
}

#[test]
fn index_data_empty() {
    let indices: [u16; 0] = [];
    let data = IndexData::U16(&indices);
    assert_eq!(data.size(), 0);
    assert!(data.data().is_empty());
}

#[test]
fn index_data_u32_bytes_are_native_order() {
    let indices: [u32; 2] = [0x0102_0304, 7];
    let data = IndexData::U32(&indices);
    let mut expected = Vec::new();
    expected.extend_from_slice(&0x0102_0304u32.to_ne_bytes());
    expected.extend_from_slice(&7u32.to_ne_bytes());
    assert_eq!(data.data(), expected.as_slice());
}

#[test]
fn index_data_u16_bytes_are_native_order() {
    let indices: [u16; 3] = [0x0a0b, 1, 300];
    let data = IndexData::U16(&indices);
    let mut expected = Vec::new();
    for i in indices {
        expected.extend_from_slice(&i.to_ne_bytes());
    }
    assert_eq!(data.data().len(), 6);
    assert_eq!(data.data(), expected.as_slice());
}

#[test]
fn draw_mode_from_params() {
    let direct = DrawMode::from_params(&DrawModeParams::Direct { vertex_count: 36 });
    assert_eq!(direct, DrawMode::Direct { vertex_count: 36 });
    let indices: [u16; 6] = [0, 1, 2, 0, 2, 3];
    let indexed = DrawMode::from_params(&DrawModeParams::Indexed {
        index_data: IndexData::U16(&indices),
    });
    assert_eq!(
        indexed,
        DrawMode::Indexed { format: IndexFormat::Uint16, index_count: 6 }
    );
}

#[test]
fn multisample_count_when_enabled() {
    let config = MultiSampleConfig::new(true, 4);
    assert!(config.is_multisample_enabled());
    assert_eq!(config.get_multisample_count(), 4);
}

#[test]
fn multisample_count_when_disabled() {
    let config = MultiSampleConfig::new(false, 4);
    assert!(!config.is_multisample_enabled());
    assert_eq!(config.get_multisample_count(), 1);
}

#[test]
fn multisample_default_is_four_samples() {
    let config = MultiSampleConfig::default();
    assert!(config.is_multisample_enabled());
    assert_eq!(config.get_multisample_count(), 4);
}

#[test]
fn preferred_format_first_srgb() {
    assert_eq!(preferred_surface_format(&vec![false, true, true]), Some(1));
}

#[test]
fn preferred_format_falls_back_to_first() {
    assert_eq!(preferred_surface_format(&vec![false, false]), Some(0));
}

#[test]
fn preferred_format_none_without_formats() {
    assert_eq!(preferred_surface_format(&vec![]), None);
}

#[test]
fn surface_uses_requested_dimensions() {
    let s = SurfaceState::new(
        Some(Dimensions { width: 450, height: 400 }),
        Dimensions { width: 0, height: 0 },
    );
    assert_eq!(s.size, Dimensions { width: 450, height: 400 });
}

#[test]
fn surface_falls_back_to_window_size() {
    let s = SurfaceState::new(None, Dimensions { width: 800, height: 600 });
    assert_eq!(s.size, Dimensions { width: 800, height: 600 });
}

#[test]
fn surface_textures_follow_multisampling() {
    let mut s = SurfaceState::new(None, Dimensions { width: 800, height: 600 });
    assert_eq!(
        s.depth_texture(),
        TextureRequest { width: 800, height: 600, sample_count: 4 }
    );
    assert_eq!(
        s.multisample_texture(),
        Some(TextureRequest { width: 800, height: 600, sample_count: 4 })
    );
    assert_eq!(s.color_target(), ColorTarget::MultisampleResolvedToSurface);
    s.resize(1024, 768);
    assert_eq!(s.size, Dimensions { width: 1024, height: 768 });
    assert_eq!(
        s.depth_texture(),
        TextureRequest { width: 1024, height: 768, sample_count: 4 }
    );
}

#[test]
fn surface_without_multisampling() {
    let s = SurfaceState {
        size: Dimensions { width: 10, height: 20 },
        multisample: MultiSampleConfig::new(false, 8),
    };
    assert_eq!(
        s.depth_texture(),
        TextureRequest { width: 10, height: 20, sample_count: 1 }
    );
    assert_eq!(s.multisample_texture(), None);
    assert_eq!(s.color_target(), ColorTarget::Surface);
}

fn direct_builder() -> DrawableBuilder<&'static str, &'static str, u8> {
    DrawableBuilder::new(&DrawModeParams::Direct { vertex_count: 3 })
}

#[test]
fn builder_defaults() {
    let layout = direct_builder().build();
    assert_eq!(layout.draw_mode, DrawMode::Direct { vertex_count: 3 });
    assert_eq!(layout.instance_count, 1);
    assert_eq!(layout.blend_option, None);
    assert!(layout.vertex_buffers.is_empty());
    assert!(layout.bind_groups.is_empty());
}

#[test]
fn builder_refuses_used_location() {
    let mut b = direct_builder();
    assert_eq!(b.add_attribute(0, StepMode::Vertex, 12, "positions"), Ok(()));
    assert_eq!(
        b.add_attribute(0, StepMode::Vertex, 12, "colors"),
        Err(DrawableError::LocationAlreadyUsed { location: 0 })
    );
    assert_eq!(b.add_attribute(1, StepMode::Instance, 8, "offsets"), Ok(()));
    let layout = b.build();
    assert_eq!(layout.vertex_buffers.len(), 2);
    assert_eq!(layout.vertex_buffers[0].buffer, "positions");
    assert_eq!(layout.vertex_buffers[0].shader_location, 0);
    assert_eq!(layout.vertex_buffers[0].array_stride, 12);
    assert_eq!(layout.vertex_buffers[1].buffer, "offsets");
    assert_eq!(layout.vertex_buffers[1].shader_location, 1);
    assert_eq!(layout.vertex_buffers[1].step_mode, StepMode::Instance);
}

#[test]
fn builder_groups_sorted_and_replaced() {
    let mut b = direct_builder();
    b.add_uniform(2, 5, "late");
    b.add_uniform(2, 1, "early");
    b.add_uniform(0, 0, "camera");
    b.add_uniform(2, 5, "replaced");
    let layout = b.build();
    assert_eq!(layout.bind_groups.len(), 3);
    let group0: Vec<(u32, &str)> = layout.bind_groups[0].iter().map(|e| (e.binding, e.resource)).collect();
    assert_eq!(group0, vec![(0, "camera")]);
    assert!(layout.bind_groups[1].is_empty());
    let group2: Vec<(u32, &str)> = layout.bind_groups[2].iter().map(|e| (e.binding, e.resource)).collect();
    assert_eq!(group2, vec![(1, "early"), (5, "replaced")]);
}

#[test]
fn builder_instance_count_and_blend() {
    let mut b = direct_builder();
    b.set_instance_count(5);
    b.set_blend_option(9);
    let layout = b.build();
    assert_eq!(layout.instance_count, 5);
    assert_eq!(layout.blend_option, Some(9));
}

#[test]
fn render_commands_direct() {
    let mut b = direct_builder();
    b.add_attribute(0, StepMode::Vertex, 12, "positions").unwrap();
    b.add_attribute(1, StepMode::Vertex, 12, "colors").unwrap();
    b.add_uniform(0, 0, "transform");
    b.set_instance_count(2);
    let plan = b.build().draw_plan();
    assert_eq!(
        plan,
        DrawPlan {
            draw_mode: DrawMode::Direct { vertex_count: 3 },
            bind_group_count: 1,
            vertex_buffer_count: 2,
            instance_count: 2,
        }
    );
    assert_eq!(
        plan.render_commands(),
        vec![
            RenderCommand::SetPipeline,
            RenderCommand::SetBlendConstant,
            RenderCommand::SetBindGroup { index: 0 },
            RenderCommand::SetVertexBuffer { slot: 0 },
            RenderCommand::SetVertexBuffer { slot: 1 },
            RenderCommand::Draw { vertex_count: 3, instance_count: 2 },
        ]
    );
}

#[test]
fn render_commands_indexed() {
    let plan = DrawPlan {
        draw_mode: DrawMode::Indexed { format: IndexFormat::Uint32, index_count: 12 },
        bind_group_count: 2,
        vertex_buffer_count: 0,
        instance_count: 1,
    };
    assert_eq!(
        plan.render_commands(),
        vec![
            RenderCommand::SetPipeline,
            RenderCommand::SetBlendConstant,
            RenderCommand::SetBindGroup { index: 0 },
            RenderCommand::SetBindGroup { index: 1 },
            RenderCommand::SetIndexBuffer { format: IndexFormat::Uint32 },
            RenderCommand::DrawIndexed { index_count: 12, instance_count: 1 },
        ]
    );
}
