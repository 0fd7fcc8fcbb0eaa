//! The render graph node of the effect, for one view in one frame.
//!
//! The node does not touch the engine. It is a state machine: [`step`] takes
//! the node's state and the engine's answer to the last request, and gives
//! the next state and the next request. Whoever drives the node performs the
//! request and comes back with the answer. What is recorded when the node
//! asks for it is the plugin's [`PassPlan`].

use crate::bindings::{
    bind_group_layout_entries, dynamic_uniforms, layout_entries_spec, lemma_dynamic_uniforms,
    BindingType, UniformData, SLOT_COUNT,
};
use crate::pipeline::Preset;
use crate::plugin::{label_chars, PluginConfig, PostProcessPlugin};
use std::fmt::Debug;
use std::hash::Hash;
use vstd::prelude::*;

verus! {

/// Something the node needs from the engine before it can draw.
#[derive(Clone, Copy, Debug, PartialEq, Eq, Structural)]
pub enum Probe {
    /// The compiled render pipeline, from the pipeline cache.
    Pipeline,
    /// The binding of the uniform buffer with the cameras' settings.
    SettingsBinding,
    /// The binding of the uniform buffer with the cameras' view data.
    ViewBinding,
}

/// Where the node stands in its run for a view.
#[derive(Clone, Copy, Debug, PartialEq, Eq, Structural)]
pub enum NodeState {
    /// Nothing was asked yet.
    Start,
    /// The engine was asked for the named resource.
    Probing(Probe),
    /// The engine was asked for the view's source and destination texture.
    Acquiring,
    /// The engine was asked to record the pass.
    Recording,
    /// The run ended without a draw, because the named resource was missing.
    Skipped(Probe),
    /// The run ended with the pass recorded.
    Drawn,
}

/// One of the two main textures of a view, as a pass sees them.
#[derive(Clone, Copy, Debug, PartialEq, Eq, Structural)]
pub enum PassTexture {
    /// The texture that was current when the pass was started.
    Source,
    /// The other texture, which is current once the pass was started.
    Destination,
}

/// The offsets that select one view's records in the two uniform buffers.
#[derive(Clone, Copy, Debug, PartialEq, Eq, Structural)]
pub struct ViewOffsets {
    /// Offset of the view's settings in the settings buffer.
    pub settings_index: u32,
    /// Offset of the view's data in the view buffer.
    pub view_offset: u32,
}

impl ViewOffsets {
    /// The view's offset into the buffer that holds `data`.
    pub open spec fn offset_of(self, data: UniformData) -> u32 {
        match data {
            UniformData::Settings => self.settings_index,
            UniformData::View => self.view_offset,
        }
    }

    /// The view's offsets into the buffers that hold `data`, one by one.
    pub open spec fn select(self, data: Seq<UniformData>) -> Seq<u32> {
        Seq::new(data.len(), |i: int| self.offset_of(data[i]))
    }

    /// The view's offset into the buffer that holds `data`.
    pub fn of(&self, data: UniformData) -> (offset: u32)
        ensures
            offset == self.offset_of(data),
    {
        match data {
            UniformData::Settings => self.settings_index,
            UniformData::View => self.view_offset,
        }
    }
}

/// The render pass of the effect for one view.
#[derive(Clone, Copy, Debug, PartialEq)]
pub struct PassPlan {
    /// Label of the bind group.
    pub bind_group_label: &'static str,
    /// Label of the render pass.
    pub pass_label: Option<&'static str>,
    /// The texture the pass renders to, its only colour attachment.
    pub color_target: PassTexture,
    /// The texture into which the colour attachment is resolved, if any.
    pub resolve_target: Option<PassTexture>,
    /// Load and store operations on the colour attachment.
    pub color_ops: Preset,
    /// The depth and stencil attachment.
    pub depth_stencil_attachment: Preset,
    /// Where the pass writes timestamps.
    pub timestamp_writes: Preset,
    /// Where the pass writes the results of occlusion queries.
    pub occlusion_query_set: Preset,
    /// Index at which the bind group is set.
    pub bind_group_index: u32,
    /// The view's offsets, for the bind group's two uniform buffers.
    pub offsets: ViewOffsets,
    /// First vertex of the draw.
    pub first_vertex: u32,
    /// End of the draw's vertex range; the vertex with this index is not drawn.
    pub vertices_end: u32,
    /// First instance of the draw.
    pub first_instance: u32,
    /// End of the draw's instance range.
    pub instances_end: u32,
}

/// What the node asks of the engine.
#[derive(Clone, Copy, Debug, PartialEq, Eq, Structural)]
pub enum Request {
    /// Look the resource up and answer whether it is there.
    Probe(Probe),
    /// Start a post-process write on the view: hand out its current main
    /// texture as the source, the other one as the destination, and make the
    /// destination the current one.
    AcquireTextures,
    /// Build the view's bind group and record the plugin's pass for the view.
    Record,
}

/// The resource that is looked up after `probe`, if there is one.
pub open spec fn probe_after(probe: Probe) -> Option<Probe> {
    match probe {
        Probe::Pipeline => Some(Probe::SettingsBinding),
        Probe::SettingsBinding => Some(Probe::ViewBinding),
        Probe::ViewBinding => None,
    }
}

/// The state that follows `state` when the engine's answer to the last
/// request was `present`. The answer counts only after a lookup.
pub open spec fn next_state(state: NodeState, present: bool) -> NodeState {
    match state {
        NodeState::Start => NodeState::Probing(Probe::Pipeline),
        NodeState::Probing(probe) => if !present {
            NodeState::Skipped(probe)
        } else {
            match probe_after(probe) {
                Some(next) => NodeState::Probing(next),
                None => NodeState::Acquiring,
            }
        },
        NodeState::Acquiring => NodeState::Recording,
        NodeState::Recording => NodeState::Drawn,
        NodeState::Skipped(probe) => NodeState::Skipped(probe),
        NodeState::Drawn => NodeState::Drawn,
    }
}

/// Whether the run is over in `state`.
pub open spec fn is_final(state: NodeState) -> bool {
    state is Skipped || state is Drawn
}

/// Number of requests the node still makes at most from `state` on.
pub open spec fn requests_left(state: NodeState) -> nat {
    match state {
        NodeState::Start => 5,
        NodeState::Probing(Probe::Pipeline) => 4,
        NodeState::Probing(Probe::SettingsBinding) => 3,
        NodeState::Probing(Probe::ViewBinding) => 2,
        NodeState::Acquiring => 1,
        NodeState::Recording => 0,
        NodeState::Skipped(_) => 0,
        NodeState::Drawn => 0,
    }
}

impl PassPlan {
    /// Whether this is the pass of the effect that `config` describes, for
    /// the view with the given offsets: a pass into the destination texture
    /// alone, with the engine's default operations and nothing else
    /// attached, the bind group at index 0, and a draw of the vertices 0, 1,
    /// 2 in the one instance 0.
    pub open spec fn plans<R>(&self, config: PluginConfig<R>, offsets: ViewOffsets) -> bool {
        &&& self.bind_group_label@ == config.bind_group_layout_label
        &&& label_chars(self.pass_label) == config.debug_label
        &&& self.color_target == PassTexture::Destination
        &&& self.resolve_target.is_none()
        &&& self.color_ops == Preset::EngineDefault
        &&& self.depth_stencil_attachment == Preset::EngineDefault
        &&& self.timestamp_writes == Preset::EngineDefault
        &&& self.occlusion_query_set == Preset::EngineDefault
        &&& self.bind_group_index == 0
        &&& self.offsets == offsets
        &&& self.first_vertex == 0
        &&& self.vertices_end == 3
        &&& self.first_instance == 0
        &&& self.instances_end == 1
    }

    /// The dynamic offsets with which the bind group is set: one for each
    /// entry of the layout that takes one, in binding order. That is the
    /// view's offset into the settings buffer, then its offset into the view
    /// buffer.
    pub fn dynamic_offsets(&self) -> (offsets: Vec<u32>)
        ensures
            offsets@ == self.offsets.select(dynamic_uniforms(SLOT_COUNT as int)),
            offsets@ == seq![self.offsets.settings_index, self.offsets.view_offset],
    {
        let layout = bind_group_layout_entries();
        let mut offsets: Vec<u32> = Vec::new();
        let mut position: usize = 0;
        while position < layout.len()
            invariant
                position <= layout.len(),
                layout@ == layout_entries_spec(),
                offsets@ == self.offsets.select(dynamic_uniforms(position as int)),
            decreases layout.len() - position,
        {
            match layout[position].ty {
                BindingType::UniformBuffer { has_dynamic_offset: true, data } => {
                    offsets.push(self.offsets.of(data));
                },
                _ => {},
            }
            position = position + 1;
        }
        proof {
            lemma_dynamic_uniforms();
            assert(offsets@ =~= seq![self.offsets.settings_index, self.offsets.view_offset]);
        }
        offsets
    }
}

/// The request that the node makes on entering `state`, if it makes one.
pub open spec fn request_on(state: NodeState) -> Option<Request> {
    match state {
        NodeState::Probing(probe) => Some(Request::Probe(probe)),
        NodeState::Acquiring => Some(Request::AcquireTextures),
        NodeState::Recording => Some(Request::Record),
        NodeState::Start | NodeState::Skipped(_) | NodeState::Drawn => None,
    }
}

/// One step of the node's run for a view.
///
/// `state` is the state the node is in and `present` the engine's answer to
/// the request that was made on entering it: whether the resource that was
/// looked up is there. After a request that is no lookup, and at the start,
/// `present` is ignored.
///
/// The node looks up the pipeline, the settings binding and the view
/// binding, in this order, and ends the run without a draw at the first that
/// is missing. With all three there it acquires the view's textures and then
/// has the pass recorded. The run is over when `None` comes back.
pub fn step(state: NodeState, present: bool) -> (next: (NodeState, Option<Request>))
    ensures
        next.0 == next_state(state, present),
        next.1 == request_on(next.0),
        next.1.is_none() ==> is_final(next.0),
        requests_left(next.0) <= requests_left(state),
        next.1.is_some() ==> requests_left(next.0) < requests_left(state),
{
    match state {
        NodeState::Start => (
            NodeState::Probing(Probe::Pipeline),
            Some(Request::Probe(Probe::Pipeline)),
        ),
        NodeState::Probing(probe) => {
            if !present {
                (NodeState::Skipped(probe), None)
            } else {
                match probe {
                    Probe::Pipeline => (
                        NodeState::Probing(Probe::SettingsBinding),
                        Some(Request::Probe(Probe::SettingsBinding)),
                    ),
                    Probe::SettingsBinding => (
                        NodeState::Probing(Probe::ViewBinding),
                        Some(Request::Probe(Probe::ViewBinding)),
                    ),
                    Probe::ViewBinding => (NodeState::Acquiring, Some(Request::AcquireTextures)),
                }
            }
        },
        NodeState::Acquiring => (NodeState::Recording, Some(Request::Record)),
        NodeState::Recording => (NodeState::Drawn, None),
        NodeState::Skipped(probe) => (NodeState::Skipped(probe), None),
        NodeState::Drawn => (NodeState::Drawn, None),
    }
}

impl<U: Clone, R: Debug + Hash + PartialEq + Eq + Clone> PostProcessPlugin<U, R> {
    /// The render pass for the view with the given offsets.
    pub fn pass_plan(&self, offsets: ViewOffsets) -> (plan: PassPlan)
        ensures
            plan.plans(self@, offsets),
    {
        PassPlan {
            bind_group_label: self.bind_group_layout_label(),
            pass_label: self.debug_label(),
            color_target: PassTexture::Destination,
            resolve_target: None,
            color_ops: Preset::EngineDefault,
            depth_stencil_attachment: Preset::EngineDefault,
            timestamp_writes: Preset::EngineDefault,
            occlusion_query_set: Preset::EngineDefault,
            bind_group_index: 0,
            offsets,
            first_vertex: 0,
            vertices_end: 3,
            first_instance: 0,
            instances_end: 1,
        }
    }
}

} // verus!
