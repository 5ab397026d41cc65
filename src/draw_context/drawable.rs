use std::collections::HashSet;
use vstd::prelude::*;

use super::{DrawMode, DrawModeParams, IndexFormat};

verus! {

broadcast use vstd::std_specs::hash::group_hash_axioms;

/// Whether a vertex buffer advances per vertex or per instance.
#[derive(Clone, Copy, Debug, PartialEq, Eq, Structural)]
pub enum StepMode {
    Vertex,
    Instance,
}

/// One vertex attribute, fed from a buffer of its own.
pub struct VertexAttribute<V> {
    pub shader_location: u32,
    pub step_mode: StepMode,
    /// Bytes from one element of the buffer to the next.
    pub array_stride: u64,
    /// The buffer that holds the attribute's data.
    pub buffer: V,
}

/// A uniform bound at one binding index of a bind group.
pub struct UniformBinding<U> {
    pub binding: u32,
    pub resource: U,
}

/// Why an attribute was refused.
#[derive(Clone, Copy, Debug, PartialEq, Eq, Structural)]
pub enum DrawableError {
    /// Another attribute already reads from this shader location.
    LocationAlreadyUsed { location: u32 },
}

/// The bindings of a group, as a map from binding index to resource.
pub open spec fn bindings_map<U>(entries: Seq<UniformBinding<U>>) -> Map<u32, U>
    decreases entries.len(),
{
    if entries.len() == 0 {
        Map::empty()
    } else {
        bindings_map(entries.drop_first()).insert(entries[0].binding, entries[0].resource)
    }
}

/// The binding indices strictly increase along the group.
pub open spec fn bindings_sorted<U>(entries: Seq<UniformBinding<U>>) -> bool {
    forall|i: int, j: int|
        0 <= i < j < entries.len() ==> #[trigger] entries[i].binding < #[trigger] entries[j].binding
}

/// The shader locations that the attributes read from.
pub open spec fn attribute_locations<V>(attributes: Seq<VertexAttribute<V>>) -> Set<u32> {
    Set::new(|l: u32| exists|i: int| 0 <= i < attributes.len() && #[trigger] attributes[i].shader_location == l)
}

/// No two attributes read from the same shader location.
pub open spec fn locations_distinct<V>(attributes: Seq<VertexAttribute<V>>) -> bool {
    forall|i: int, j: int|
        0 <= i < j < attributes.len() ==> #[trigger] attributes[i].shader_location
            != #[trigger] attributes[j].shader_location
}

/// Group `g` of `groups` as a map, empty for a group that was never filled.
pub open spec fn group_map<U>(groups: Seq<Vec<UniformBinding<U>>>, g: int) -> Map<u32, U> {
    if 0 <= g < groups.len() {
        bindings_map(groups[g]@)
    } else {
        Map::empty()
    }
}

proof fn lemma_bindings_insert<U>(s: Seq<UniformBinding<U>>, i: int, e: UniformBinding<U>)
    requires
        0 <= i <= s.len(),
        forall|j: int| 0 <= j < i ==> #[trigger] s[j].binding != e.binding,
    ensures
        bindings_map(s.insert(i, e)) == bindings_map(s).insert(e.binding, e.resource),
    decreases i,
{
    if i == 0 {
        assert(s.insert(0, e).drop_first() =~= s);
    } else {
        assert(s.insert(i, e).drop_first() =~= s.drop_first().insert(i - 1, e));
        assert forall|j: int| 0 <= j < i - 1 implies #[trigger] s.drop_first()[j].binding != e.binding by {
            assert(s.drop_first()[j] == s[j + 1]);
        }
        lemma_bindings_insert(s.drop_first(), i - 1, e);
        assert(s[0].binding != e.binding);
        assert(bindings_map(s.insert(i, e)) =~= bindings_map(s).insert(e.binding, e.resource));
    }
}

proof fn lemma_bindings_replace<U>(s: Seq<UniformBinding<U>>, i: int, e: UniformBinding<U>)
    requires
        0 <= i < s.len(),
        s[i].binding == e.binding,
        forall|j: int| 0 <= j < i ==> #[trigger] s[j].binding != e.binding,
    ensures
        bindings_map(s.update(i, e)) == bindings_map(s).insert(e.binding, e.resource),
    decreases i,
{
    if i == 0 {
        assert(s.update(0, e).drop_first() =~= s.drop_first());
        assert(bindings_map(s.update(i, e)) =~= bindings_map(s).insert(e.binding, e.resource));
    } else {
        assert(s.update(i, e).drop_first() =~= s.drop_first().update(i - 1, e));
        assert forall|j: int| 0 <= j < i - 1 implies #[trigger] s.drop_first()[j].binding != e.binding by {
            assert(s.drop_first()[j] == s[j + 1]);
        }
        lemma_bindings_replace(s.drop_first(), i - 1, e);
        assert(s[0].binding != e.binding);
        assert(bindings_map(s.update(i, e)) =~= bindings_map(s).insert(e.binding, e.resource));
    }
}

/// Puts `e` in a group kept in increasing binding order, in place of an entry
/// with the same binding index if there is one.
fn insert_binding<U>(entries: &mut Vec<UniformBinding<U>>, e: UniformBinding<U>)
    requires
        bindings_sorted(old(entries)@),
    ensures
        bindings_sorted(final(entries)@),
        bindings_map(final(entries)@) == bindings_map(old(entries)@).insert(e.binding, e.resource),
{
    let mut i: usize = 0;
    while i < entries.len() && entries[i].binding < e.binding
        invariant
            i <= entries@.len(),
            forall|j: int| 0 <= j < i ==> #[trigger] entries@[j].binding < e.binding,
        decreases entries@.len() - i,
    {
        i = i + 1;
    }
    let ghost s = entries@;
    if i < entries.len() && entries[i].binding == e.binding {
        proof {
            lemma_bindings_replace(s, i as int, e);
        }
        entries.remove(i);
        entries.insert(i, e);
        assert(entries@ =~= s.update(i as int, e));
    } else {
        proof {
            lemma_bindings_insert(s, i as int, e);
        }
        entries.insert(i, e);
    }
}


/// Collects what a drawable is made of: its draw mode, one vertex buffer per
/// attribute, the uniforms of each bind group, the instance count and the
/// blend state. `build` hands it all over as a `DrawableLayout`.
pub struct DrawableBuilder<V, U, B> {
    draw_mode: DrawMode,
    used_locations: HashSet<u32>,
    attributes: Vec<VertexAttribute<V>>,
    instance_count: u32,
    blend_option: Option<B>,
    binding_groups: Vec<Vec<UniformBinding<U>>>,
}

impl<V, U, B> DrawableBuilder<V, U, B> {
    pub closed spec fn wf(&self) -> bool {
        &&& self.used_locations@ == attribute_locations(self.attributes@)
        &&& locations_distinct(self.attributes@)
        &&& forall|g: int|
            0 <= g < self.binding_groups@.len() ==> bindings_sorted(#[trigger] self.binding_groups@[g]@)
    }

    pub closed spec fn draw_mode_spec(&self) -> DrawMode {
        self.draw_mode
    }

    /// The attributes added so far, in the order of their vertex buffer slots.
    pub closed spec fn attributes_spec(&self) -> Seq<VertexAttribute<V>> {
        self.attributes@
    }

    pub closed spec fn instance_count_spec(&self) -> u32 {
        self.instance_count
    }

    pub closed spec fn blend_spec(&self) -> Option<B> {
        self.blend_option
    }

    pub closed spec fn groups_spec(&self) -> Seq<Vec<UniformBinding<U>>> {
        self.binding_groups@
    }

    /// Number of bind groups: one past the highest group a uniform was added to.
    pub open spec fn group_count(&self) -> nat {
        self.groups_spec().len()
    }

    /// The uniforms of bind group `g`, by binding index.
    pub open spec fn bindings(&self, g: int) -> Map<u32, U> {
        group_map(self.groups_spec(), g)
    }

    /// The shader locations already taken by an attribute.
    pub open spec fn locations(&self) -> Set<u32> {
        attribute_locations(self.attributes_spec())
    }

    /// A builder with no attribute and no uniform, drawing one instance
    /// without blending.
    pub fn new(draw_params: &DrawModeParams) -> (r: Self)
        ensures
            r.wf(),
            r.draw_mode_spec() == DrawMode::of_params(draw_params),
            r.attributes_spec() == Seq::<VertexAttribute<V>>::empty(),
            r.instance_count_spec() == 1,
            r.blend_spec() is None,
            r.group_count() == 0,
    {
        let r = DrawableBuilder {
            draw_mode: DrawMode::from_params(draw_params),
            used_locations: HashSet::new(),
            attributes: Vec::new(),
            instance_count: 1,
            blend_option: None,
            binding_groups: Vec::new(),
        };
        assert(r.used_locations@ =~= attribute_locations(r.attributes@));
        r
    }

    pub fn set_instance_count(&mut self, value: u32)
        requires
            old(self).wf(),
        ensures
            final(self).wf(),
            final(self).instance_count_spec() == value,
            final(self).draw_mode_spec() == old(self).draw_mode_spec(),
            final(self).attributes_spec() == old(self).attributes_spec(),
            final(self).blend_spec() == old(self).blend_spec(),
            final(self).groups_spec() == old(self).groups_spec(),
    {
        self.instance_count = value;
    }

    pub fn set_blend_option(&mut self, blend_option: B)
        requires
            old(self).wf(),
        ensures
            final(self).wf(),
            final(self).blend_spec() == Some(blend_option),
            final(self).draw_mode_spec() == old(self).draw_mode_spec(),
            final(self).attributes_spec() == old(self).attributes_spec(),
            final(self).instance_count_spec() == old(self).instance_count_spec(),
            final(self).groups_spec() == old(self).groups_spec(),
    {
        self.blend_option = Some(blend_option);
    }

    /// Binds `uniform` at `binding` of bind group `bind_group`, in place of
    /// whatever was bound there. The groups below it that were never filled
    /// stay empty.
    pub fn add_uniform(&mut self, bind_group: u32, binding: u32, uniform: U)
        requires
            old(self).wf(),
            bind_group < usize::MAX,
        ensures
            final(self).wf(),
            final(self).group_count() == if bind_group < old(self).group_count() {
                old(self).group_count() as int
            } else {
                bind_group + 1
            },
            final(self).bindings(bind_group as int) == old(self).bindings(bind_group as int).insert(
                binding,
                uniform,
            ),
            forall|g: int| g != bind_group ==> #[trigger] final(self).bindings(g) == old(self).bindings(g),
            final(self).draw_mode_spec() == old(self).draw_mode_spec(),
            final(self).attributes_spec() == old(self).attributes_spec(),
            final(self).instance_count_spec() == old(self).instance_count_spec(),
            final(self).blend_spec() == old(self).blend_spec(),
    {
        let g = bind_group as usize;
        let mut groups: Vec<Vec<UniformBinding<U>>> = Vec::new();
        std::mem::swap(&mut groups, &mut self.binding_groups);
        let ghost old_groups = groups@;
        while groups.len() <= g
            invariant
                g < usize::MAX,
                old_groups.len() <= groups@.len(),
                groups@.len() <= if g < old_groups.len() { old_groups.len() as int } else { g as int + 1 },
                forall|h: int| 0 <= h < old_groups.len() ==> #[trigger] groups@[h] == old_groups[h],
                forall|h: int| old_groups.len() <= h < groups@.len() ==> #[trigger] groups@[h]@.len() == 0,
                forall|h: int| 0 <= h < groups@.len() ==> bindings_sorted(#[trigger] groups@[h]@),
            decreases g + 1 - groups@.len(),
        {
            groups.push(Vec::new());
        }
        let ghost grown = groups@;
        assert forall|h: int| 0 <= h < grown.len() implies #[trigger] group_map(grown, h) == group_map(old_groups, h) by {
            if h >= old_groups.len() {
                assert(grown[h]@.len() == 0);
                assert(bindings_map(grown[h]@) == Map::<u32, U>::empty());
            }
        }
        let mut entries = groups.remove(g);
        insert_binding(&mut entries, UniformBinding { binding, resource: uniform });
        groups.insert(g, entries);
        assert(groups@ =~= grown.update(g as int, entries));
        assert forall|h: int| h != bind_group implies #[trigger] group_map(groups@, h) == group_map(old_groups, h) by {
            if 0 <= h < grown.len() {
                assert(group_map(grown, h) == group_map(old_groups, h));
            }
        }
        self.binding_groups = groups;
    }

    /// Adds an attribute read from `shader_location`, fed from `buffer` in the
    /// next vertex buffer slot. Refused, with nothing changed, when another
    /// attribute already reads from that location.
    pub fn add_attribute(&mut self, shader_location: u32, step_mode: StepMode, array_stride: u64, buffer: V) -> (r: Result<(), DrawableError>)
        requires
            old(self).wf(),
        ensures
            final(self).wf(),
            r is Err <==> old(self).locations().contains(shader_location),
            r is Err ==> r == Err::<(), DrawableError>(DrawableError::LocationAlreadyUsed { location: shader_location }),
            r is Err ==> final(self).attributes_spec() == old(self).attributes_spec(),
            r is Ok ==> final(self).attributes_spec() == old(self).attributes_spec().push(
                VertexAttribute { shader_location, step_mode, array_stride, buffer },
            ),
            final(self).draw_mode_spec() == old(self).draw_mode_spec(),
            final(self).instance_count_spec() == old(self).instance_count_spec(),
            final(self).blend_spec() == old(self).blend_spec(),
            final(self).groups_spec() == old(self).groups_spec(),
    {
        if self.used_locations.contains(&shader_location) {
            return Err(DrawableError::LocationAlreadyUsed { location: shader_location });
        }
        let ghost old_attributes = self.attributes@;
        self.used_locations.insert(shader_location);
        self.attributes.push(VertexAttribute { shader_location, step_mode, array_stride, buffer });
        assert(self.attributes@[old_attributes.len() as int].shader_location == shader_location);
        assert forall|l: u32| attribute_locations(self.attributes@).contains(l) <==> #[trigger] self.used_locations@.contains(l) by {
            if attribute_locations(self.attributes@).contains(l) && l != shader_location {
                let i = choose|i: int| 0 <= i < self.attributes@.len() && #[trigger] self.attributes@[i].shader_location == l;
                assert(old_attributes[i].shader_location == l);
            }
            if self.used_locations@.contains(l) && l != shader_location {
                assert(attribute_locations(old_attributes).contains(l));
                let i = choose|i: int| 0 <= i < old_attributes.len() && #[trigger] old_attributes[i].shader_location == l;
                assert(self.attributes@[i].shader_location == l);
            }
        }
        assert(self.used_locations@ =~= attribute_locations(self.attributes@));
        assert forall|i: int, j: int| 0 <= i < j < self.attributes@.len() implies #[trigger] self.attributes@[i].shader_location
            != #[trigger] self.attributes@[j].shader_location by {
            if j == old_attributes.len() {
                assert(old_attributes[i].shader_location == self.attributes@[i].shader_location);
                assert(attribute_locations(old_attributes).contains(old_attributes[i].shader_location));
            }
        }
        Ok(())
    }

    /// Hands over everything collected: the bind groups in group order, each
    /// with its uniforms in increasing binding order, and the attributes in
    /// slot order.
    pub fn build(self) -> (r: DrawableLayout<V, U, B>)
        requires
            self.wf(),
        ensures
            r.draw_mode == self.draw_mode_spec(),
            r.vertex_buffers@ == self.attributes_spec(),
            r.instance_count == self.instance_count_spec(),
            r.blend_option == self.blend_spec(),
            r.bind_groups@.len() == self.group_count(),
            forall|g: int| 0 <= g < r.bind_groups@.len() ==> bindings_sorted(#[trigger] r.bind_groups@[g]@),
            forall|g: int| #[trigger] group_map(r.bind_groups@, g) == self.bindings(g),
            locations_distinct(r.vertex_buffers@),
    {
        DrawableLayout {
            draw_mode: self.draw_mode,
            vertex_buffers: self.attributes,
            instance_count: self.instance_count,
            blend_option: self.blend_option,
            bind_groups: self.binding_groups,
        }
    }
}

/// Everything a render pipeline and its draw calls are made from.
pub struct DrawableLayout<V, U, B> {
    pub draw_mode: DrawMode,
    /// One per vertex buffer slot, in slot order.
    pub vertex_buffers: Vec<VertexAttribute<V>>,
    pub instance_count: u32,
    pub blend_option: Option<B>,
    /// One per bind group, in group order; each in increasing binding order.
    pub bind_groups: Vec<Vec<UniformBinding<U>>>,
}

impl<V, U, B> DrawableLayout<V, U, B> {
    /// What a render pass needs to know to draw this layout.
    pub fn draw_plan(&self) -> (r: DrawPlan)
        ensures
            r == (DrawPlan {
                draw_mode: self.draw_mode,
                bind_group_count: self.bind_groups@.len() as usize,
                vertex_buffer_count: self.vertex_buffers@.len() as usize,
                instance_count: self.instance_count,
            }),
    {
        DrawPlan {
            draw_mode: self.draw_mode,
            bind_group_count: self.bind_groups.len(),
            vertex_buffer_count: self.vertex_buffers.len(),
            instance_count: self.instance_count,
        }
    }
}

/// One call on a render pass.
#[derive(Clone, Copy, Debug, PartialEq, Eq, Structural)]
pub enum RenderCommand {
    SetPipeline,
    SetBlendConstant,
    SetBindGroup { index: u32 },
    SetVertexBuffer { slot: u32 },
    SetIndexBuffer { format: IndexFormat },
    /// Draws vertices `0..vertex_count` of instances `0..instance_count`.
    Draw { vertex_count: u32, instance_count: u32 },
    /// Draws indices `0..index_count`, with base vertex 0, of instances `0..instance_count`.
    DrawIndexed { index_count: u32, instance_count: u32 },
}

/// The shape of a built drawable, as far as drawing it goes.
#[derive(Clone, Copy, Debug, PartialEq, Eq, Structural)]
pub struct DrawPlan {
    pub draw_mode: DrawMode,
    pub bind_group_count: usize,
    pub vertex_buffer_count: usize,
    pub instance_count: u32,
}

/// The calls that draw `p`: its pipeline and blend constant, every bind group
/// and every vertex buffer in order, then the draw itself.
pub open spec fn render_sequence(p: DrawPlan) -> Seq<RenderCommand> {
    seq![RenderCommand::SetPipeline, RenderCommand::SetBlendConstant]
        + Seq::new(p.bind_group_count as nat, |i: int| RenderCommand::SetBindGroup { index: i as u32 })
        + Seq::new(p.vertex_buffer_count as nat, |i: int| RenderCommand::SetVertexBuffer { slot: i as u32 })
        + match p.draw_mode {
            DrawMode::Direct { vertex_count } => seq![
                RenderCommand::Draw { vertex_count, instance_count: p.instance_count },
            ],
            DrawMode::Indexed { format, index_count } => seq![
                RenderCommand::SetIndexBuffer { format },
                RenderCommand::DrawIndexed { index_count, instance_count: p.instance_count },
            ],
        }
}

impl DrawPlan {
    pub fn render_commands(&self) -> (r: Vec<RenderCommand>)
        ensures
            r@ == render_sequence(*self),
    {
        let mut r: Vec<RenderCommand> = Vec::new();
        r.push(RenderCommand::SetPipeline);
        r.push(RenderCommand::SetBlendConstant);
        let ghost head = r@;
        let mut g: usize = 0;
        while g < self.bind_group_count
            invariant
                g <= self.bind_group_count,
                r@ == head + Seq::new(g as nat, |i: int| RenderCommand::SetBindGroup { index: i as u32 }),
            decreases self.bind_group_count - g,
        {
            r.push(RenderCommand::SetBindGroup { index: g as u32 });
            g = g + 1;
            assert(r@ =~= head + Seq::new(g as nat, |i: int| RenderCommand::SetBindGroup { index: i as u32 }));
        }
        let ghost with_groups = r@;
        let mut slot: usize = 0;
        while slot < self.vertex_buffer_count
            invariant
                slot <= self.vertex_buffer_count,
                r@ == with_groups + Seq::new(slot as nat, |i: int| RenderCommand::SetVertexBuffer { slot: i as u32 }),
            decreases self.vertex_buffer_count - slot,
        {
            r.push(RenderCommand::SetVertexBuffer { slot: slot as u32 });
            slot = slot + 1;
            assert(r@ =~= with_groups + Seq::new(slot as nat, |i: int| RenderCommand::SetVertexBuffer { slot: i as u32 }));
        }
        let ghost with_buffers = r@;
        match self.draw_mode {
            DrawMode::Direct { vertex_count } => {
                r.push(RenderCommand::Draw { vertex_count, instance_count: self.instance_count });
            },
            DrawMode::Indexed { format, index_count } => {
                r.push(RenderCommand::SetIndexBuffer { format });
                r.push(RenderCommand::DrawIndexed { index_count, instance_count: self.instance_count });
            },
        }
        assert(r@ =~= render_sequence(*self));
        r
    }
}

} // verus!
