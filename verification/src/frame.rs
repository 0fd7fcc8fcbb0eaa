//! A whole run of the node for one view, against a view as a frame presents
//! it: which resources are there, and which of the view's two main textures
//! is the current one.

use crate::node::{
    is_final, requests_left, step, NodeState, PassPlan, PassTexture, Probe, Request, ViewOffsets,
};
use crate::pipeline::Preset;
use crate::plugin::PostProcessPlugin;
use std::fmt::Debug;
use std::hash::Hash;
use vstd::prelude::*;

verus! {

/// What a frame offers the node for one view. `T` names a texture.
#[derive(Debug, PartialEq, Eq)]
pub struct FrameView<T> {
    /// Whether the pipeline cache holds the compiled pipeline.
    pub pipeline_ready: bool,
    /// Whether the settings buffer has a binding.
    pub settings_bound: bool,
    /// Whether the view buffer has a binding.
    pub view_bound: bool,
    /// The view's current main texture.
    pub main_texture: T,
    /// The view's other main texture.
    pub other_texture: T,
}

/// A command that a run records.
#[derive(Debug, PartialEq, Eq)]
pub enum GpuCommand<T> {
    /// Begin a render pass with the one colour attachment `color_target`.
    BeginRenderPass { color_target: T, ops: Preset },
    /// Use the effect's render pipeline.
    SetRenderPipeline,
    /// Set the bind group that reads `source_texture`, with the two dynamic
    /// offsets into the settings buffer and the view buffer.
    SetBindGroup { index: u32, source_texture: T, settings_offset: u32, view_offset: u32 },
    /// Draw the vertices and instances from the first up to, not including,
    /// the end.
    Draw { first_vertex: u32, vertices_end: u32, first_instance: u32, instances_end: u32 },
}

impl<T> FrameView<T> {
    /// Whether the resource is there.
    pub open spec fn offers(self, probe: Probe) -> bool {
        match probe {
            Probe::Pipeline => self.pipeline_ready,
            Probe::SettingsBinding => self.settings_bound,
            Probe::ViewBinding => self.view_bound,
        }
    }

    /// Whether everything the node looks up is there.
    pub open spec fn ready(self) -> bool {
        self.pipeline_ready && self.settings_bound && self.view_bound
    }

    /// The view with its two main textures exchanged.
    pub open spec fn swapped(self) -> FrameView<T> {
        FrameView {
            pipeline_ready: self.pipeline_ready,
            settings_bound: self.settings_bound,
            view_bound: self.view_bound,
            main_texture: self.other_texture,
            other_texture: self.main_texture,
        }
    }

    /// The view as a run of the node leaves it: with the textures exchanged
    /// if the node drew, untouched if it did not.
    pub open spec fn after_run(self) -> FrameView<T> {
        if self.ready() {
            self.swapped()
        } else {
            self
        }
    }
}

/// The texture that a pass means by `texture`.
pub open spec fn resolve<T>(texture: PassTexture, source: T, destination: T) -> T {
    match texture {
        PassTexture::Source => source,
        PassTexture::Destination => destination,
    }
}

/// The commands of the pass `plan` that reads `source` and renders to
/// `destination`.
pub open spec fn plan_commands<T>(plan: PassPlan, source: T, destination: T) -> Seq<
    GpuCommand<T>,
> {
    seq![
        GpuCommand::BeginRenderPass {
            color_target: resolve(plan.color_target, source, destination),
            ops: plan.color_ops,
        },
        GpuCommand::SetRenderPipeline,
        GpuCommand::SetBindGroup {
            index: plan.bind_group_index,
            source_texture: source,
            settings_offset: plan.offsets.settings_index,
            view_offset: plan.offsets.view_offset,
        },
        GpuCommand::Draw {
            first_vertex: plan.first_vertex,
            vertices_end: plan.vertices_end,
            first_instance: plan.first_instance,
            instances_end: plan.instances_end,
        },
    ]
}

/// The commands of the effect's pass for the view with the given offsets:
/// a pass into `destination`, the pipeline, the bind group that reads
/// `source` at the view's offsets, and a draw of three vertices, once.
pub open spec fn pass_commands<T>(offsets: ViewOffsets, source: T, destination: T) -> Seq<
    GpuCommand<T>,
> {
    seq![
        GpuCommand::BeginRenderPass { color_target: destination, ops: Preset::EngineDefault },
        GpuCommand::SetRenderPipeline,
        GpuCommand::SetBindGroup {
            index: 0,
            source_texture: source,
            settings_offset: offsets.settings_index,
            view_offset: offsets.view_offset,
        },
        GpuCommand::Draw { first_vertex: 0, vertices_end: 3, first_instance: 0, instances_end: 1 },
    ]
}

/// The commands that a run of the node records for a view: the pass from the
/// current main texture to the other one if everything is there, nothing if
/// anything is missing.
pub open spec fn recorded<T>(offsets: ViewOffsets, view: FrameView<T>) -> Seq<GpuCommand<T>> {
    if view.ready() {
        pass_commands(offsets, view.main_texture, view.other_texture)
    } else {
        Seq::empty()
    }
}

/// What holds while the node runs: where the run stands, seen from the view
/// `before` the run.
spec fn on_track<T>(
    state: NodeState,
    present: bool,
    before: FrameView<T>,
    view: FrameView<T>,
    source: T,
    destination: T,
    commands: Seq<GpuCommand<T>>,
    offsets: ViewOffsets,
) -> bool {
    match state {
        NodeState::Start => view == before && commands.len() == 0,
        NodeState::Probing(probe) => {
            &&& view == before
            &&& commands.len() == 0
            &&& present == before.offers(probe)
            &&& probe != Probe::Pipeline ==> before.pipeline_ready
            &&& probe == Probe::ViewBinding ==> before.settings_bound
        },
        NodeState::Acquiring => {
            &&& before.ready()
            &&& view == before.swapped()
            &&& source == before.main_texture
            &&& destination == before.other_texture
            &&& commands.len() == 0
        },
        NodeState::Recording | NodeState::Drawn => {
            &&& before.ready()
            &&& view == before.swapped()
            &&& commands == pass_commands(offsets, before.main_texture, before.other_texture)
        },
        NodeState::Skipped(probe) => {
            &&& !before.offers(probe)
            &&& view == before
            &&& commands.len() == 0
        },
    }
}

impl<T: Copy> FrameView<T> {
    /// Whether the resource is there.
    pub fn has(&self, probe: Probe) -> (present: bool)
        ensures
            present == self.offers(probe),
    {
        match probe {
            Probe::Pipeline => self.pipeline_ready,
            Probe::SettingsBinding => self.settings_bound,
            Probe::ViewBinding => self.view_bound,
        }
    }

    /// Starts a post-process write, as `ViewTarget::post_process_write` of
    /// bevy does on a view's two main textures: returns the current main
    /// texture as the source and the other one as the destination, and makes
    /// the destination the current main texture.
    pub fn post_process_write(&mut self) -> (textures: (T, T))
        ensures
            textures.0 == old(self).main_texture,
            textures.1 == old(self).other_texture,
            *final(self) == old(self).swapped(),
    {
        let source = self.main_texture;
        let destination = self.other_texture;
        self.main_texture = destination;
        self.other_texture = source;
        (source, destination)
    }
}

/// Appends the commands of the pass `plan` that reads `source` and renders
/// to `destination`.
pub fn record_pass<T: Copy>(
    plan: &PassPlan,
    source: T,
    destination: T,
    commands: &mut Vec<GpuCommand<T>>,
)
    ensures
        final(commands)@ == old(commands)@ + plan_commands(*plan, source, destination),
{
    let color_target = match plan.color_target {
        PassTexture::Source => source,
        PassTexture::Destination => destination,
    };
    commands.push(GpuCommand::BeginRenderPass { color_target, ops: plan.color_ops });
    commands.push(GpuCommand::SetRenderPipeline);
    commands.push(
        GpuCommand::SetBindGroup {
            index: plan.bind_group_index,
            source_texture: source,
            settings_offset: plan.offsets.settings_index,
            view_offset: plan.offsets.view_offset,
        },
    );
    commands.push(
        GpuCommand::Draw {
            first_vertex: plan.first_vertex,
            vertices_end: plan.vertices_end,
            first_instance: plan.first_instance,
            instances_end: plan.instances_end,
        },
    );
}

impl<U: Clone, R: Debug + Hash + PartialEq + Eq + Clone> PostProcessPlugin<U, R> {
    /// Runs the node for one view and returns the commands it records.
    ///
    /// If the pipeline, the settings binding or the view binding is missing,
    /// nothing is recorded and the view is left as it was. Otherwise the
    /// effect's pass is recorded, from the view's current main texture into
    /// the other one, which is the current one afterwards.
    pub fn run_view<T: Copy>(&self, offsets: ViewOffsets, view: &mut FrameView<T>) -> (commands:
        Vec<GpuCommand<T>>)
        ensures
            commands@ == recorded(offsets, *old(view)),
            *final(view) == old(view).after_run(),
    {
        let ghost before = *view;
        let mut commands: Vec<GpuCommand<T>> = Vec::new();
        let mut source = view.main_texture;
        let mut destination = view.other_texture;
        let mut state = NodeState::Start;
        let mut present = false;
        let mut running = true;
        while running
            invariant
                on_track(state, present, before, *view, source, destination, commands@, offsets),
                !running ==> is_final(state),
            decreases requests_left(state) + if running { 1nat } else { 0nat },
        {
            let (next, request) = step(state, present);
            state = next;
            match request {
                None => {
                    running = false;
                },
                Some(Request::Probe(probe)) => {
                    present = view.has(probe);
                },
                Some(Request::AcquireTextures) => {
                    let textures = view.post_process_write();
                    source = textures.0;
                    destination = textures.1;
                },
                Some(Request::Record) => {
                    let plan = self.pass_plan(offsets);
                    record_pass(&plan, source, destination, &mut commands);
                },
            }
        }
        commands
    }
}

/// Whether every bind group that `commands` set was set with `offsets`.
pub open spec fn binds_only<T>(commands: Seq<GpuCommand<T>>, offsets: ViewOffsets) -> bool {
    forall|k: int|
        0 <= k < commands.len() ==> (#[trigger] commands[k] matches GpuCommand::SetBindGroup {
            settings_offset,
            view_offset,
            ..
        } ==> settings_offset == offsets.settings_index && view_offset == offsets.view_offset)
}

/// Whether `commands` set a bind group.
pub open spec fn binds<T>(commands: Seq<GpuCommand<T>>) -> bool {
    exists|k: int| 0 <= k < commands.len() && #[trigger] commands[k] is SetBindGroup
}

/// While the pipeline is not compiled, a run records no command and leaves
/// the view as it was. The same holds while the settings buffer or the view
/// buffer has no binding.
pub proof fn lemma_missing_resource_records_nothing<T>(
    offsets: ViewOffsets,
    view: FrameView<T>,
    probe: Probe,
)
    requires
        !view.offers(probe),
    ensures
        recorded(offsets, view) == Seq::<GpuCommand<T>>::empty(),
        recorded(offsets, view).len() == 0,
        view.after_run() == view,
{
}

/// With everything there, a run records exactly one pass with one draw: the
/// pass begins, the pipeline and the bind group are set, and three vertices
/// are drawn once.
pub proof fn lemma_ready_view_is_drawn<T>(offsets: ViewOffsets, view: FrameView<T>)
    requires
        view.ready(),
    ensures
        recorded(offsets, view).len() == 4,
        recorded(offsets, view)[0] == (GpuCommand::BeginRenderPass {
            color_target: view.other_texture,
            ops: Preset::EngineDefault,
        }),
        recorded(offsets, view)[1] == GpuCommand::<T>::SetRenderPipeline,
        recorded(offsets, view)[2] == (GpuCommand::SetBindGroup {
            index: 0,
            source_texture: view.main_texture,
            settings_offset: offsets.settings_index,
            view_offset: offsets.view_offset,
        }),
        recorded(offsets, view)[3] == (GpuCommand::<T>::Draw {
            first_vertex: 0,
            vertices_end: 3,
            first_instance: 0,
            instances_end: 1,
        }),
{
}

/// In a frame with any number of views, every view's run sets bind groups
/// with that view's own offsets only, and a view that is drawn does set one.
/// So where two views differ in their settings offset, the draw of the one
/// never reads the settings of the other.
pub proof fn lemma_each_view_binds_its_own_offsets<T>(
    offsets: Seq<ViewOffsets>,
    views: Seq<FrameView<T>>,
)
    requires
        offsets.len() == views.len(),
    ensures
        forall|i: int|
            0 <= i < views.len() ==> binds_only(#[trigger] recorded(offsets[i], views[i]), offsets[i]),
        forall|i: int|
            0 <= i < views.len() && views[i].ready() ==> binds(
                #[trigger] recorded(offsets[i], views[i]),
            ),
        forall|i: int, j: int|
            0 <= i < views.len() && 0 <= j < views.len() && views[i].ready()
                && offsets[i].settings_index != offsets[j].settings_index ==> !binds_only(
                #[trigger] recorded(offsets[i], views[i]),
                #[trigger] offsets[j],
            ),
{
    assert forall|i: int| 0 <= i < views.len() && views[i].ready() implies binds(
        #[trigger] recorded(offsets[i], views[i]),
    ) by {
        assert(recorded(offsets[i], views[i])[2] is SetBindGroup);
    }
    assert forall|i: int, j: int|
        0 <= i < views.len() && 0 <= j < views.len() && views[i].ready()
            && offsets[i].settings_index != offsets[j].settings_index implies !binds_only(
        #[trigger] recorded(offsets[i], views[i]),
        #[trigger] offsets[j],
    ) by {
        assert(recorded(offsets[i], views[i])[2] is SetBindGroup);
    }
}

/// Ping-pong: a run that draws renders into the texture that was not the
/// current one and leaves it as the current one. The next run reads that
/// texture and renders into the one the first run read, and after it the
/// view is as it was at first.
pub proof fn lemma_ping_pong<T>(first: ViewOffsets, second: ViewOffsets, view: FrameView<T>)
    requires
        view.ready(),
    ensures
        recorded(first, view)[0] matches GpuCommand::BeginRenderPass { color_target, .. }
            && color_target == view.other_texture && view.after_run().main_texture
            == color_target,
        recorded(first, view)[2] matches GpuCommand::SetBindGroup { source_texture, .. }
            && source_texture == view.main_texture && view.after_run().other_texture
            == source_texture,
        recorded(second, view.after_run())[2] matches GpuCommand::SetBindGroup {
            source_texture,
            ..
        } && source_texture == view.other_texture,
        recorded(second, view.after_run())[0] matches GpuCommand::BeginRenderPass {
            color_target,
            ..
        } && color_target == view.main_texture,
        view.after_run().after_run() == view,
{
}

/// A run depends on nothing but the offsets and the view: two runs that
/// start from equal views with equal offsets record the same commands and
/// leave equal views.
pub proof fn lemma_rerun_is_identical<T>(
    offsets: ViewOffsets,
    view: FrameView<T>,
    again_offsets: ViewOffsets,
    again_view: FrameView<T>,
)
    requires
        offsets == again_offsets,
        view == again_view,
    ensures
        recorded(offsets, view) == recorded(again_offsets, again_view),
        view.after_run() == again_view.after_run(),
{
}

} // verus!
