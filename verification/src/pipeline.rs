//! What is created once, when the effect's pipeline is set up: the bind group
//! layout, the sampler, the shader and the render pipeline.

use crate::bindings::{bind_group_layout_entries, layout_entries_spec, LayoutEntry};
use crate::plugin::{label_chars, PluginConfig, PostProcessPlugin};
use std::fmt::Debug;
use std::hash::Hash;
use vstd::prelude::*;

verus! {

/// How a piece of engine state is chosen where the effect needs nothing
/// special.
#[derive(Clone, Copy, Debug, PartialEq, Eq, Structural)]
pub enum Preset {
    /// The default value of the engine's type: its default state where the
    /// type describes state, nothing where it is a list or optional.
    EngineDefault,
}

/// How a pass combines its output with what the target holds.
#[derive(Clone, Copy, Debug, PartialEq, Eq, Structural)]
pub enum BlendMode {
    /// The output replaces the target.
    Replace,
    /// The output is laid over the target by its alpha.
    AlphaBlending,
    /// As `AlphaBlending`, for colours that are already multiplied by alpha.
    PremultipliedAlphaBlending,
}

/// The colour channels that a pass writes.
#[derive(Clone, Copy, Debug, PartialEq, Eq, Structural)]
pub struct ColorWrites {
    pub red: bool,
    pub green: bool,
    pub blue: bool,
    pub alpha: bool,
}

/// The render target of the fragment stage.
#[derive(Clone, Copy, Debug, PartialEq, Eq, Structural)]
pub struct ColorTarget {
    /// Texture format of the target.
    pub format: Preset,
    /// Blending with what the target already holds, if any.
    pub blend: Option<BlendMode>,
    /// The channels that are written.
    pub write_mask: ColorWrites,
}

/// The fragment stage of the pipeline.
#[derive(Clone, Copy, Debug, PartialEq)]
pub struct FragmentStage {
    /// Asset path of the shader.
    pub shader_path: &'static str,
    /// Definitions passed to the shader.
    pub shader_defs: Preset,
    /// Name of the shader's entry point.
    pub entry_point: &'static str,
    /// The single colour target.
    pub target: ColorTarget,
}

/// The render pipeline that is queued with the engine's pipeline cache.
#[derive(Clone, Copy, Debug, PartialEq)]
pub struct PipelineRequest<'a> {
    /// Debug label of the pipeline.
    pub label: Option<&'static str>,
    /// Number of bind group layouts; the one of this effect is the only one.
    pub bind_group_layout_count: usize,
    /// Push constant ranges.
    pub push_constant_ranges: Preset,
    /// The vertex stage, as the plugin was given it.
    pub vertex: &'a bevy::render::render_resource::VertexState,
    /// The fragment stage.
    pub fragment: FragmentStage,
    /// Primitive assembly and rasterisation.
    pub primitive: Preset,
    /// Depth and stencil test.
    pub depth_stencil: Preset,
    /// Multisampling.
    pub multisample: Preset,
    /// Whether workgroup memory is zeroed before use.
    pub zero_initialize_workgroup_memory: bool,
}

/// Everything that is created for the pipeline, in the order of creation:
/// the layout, the sampler, the shader, the pipeline.
pub struct PipelineSetup<'a> {
    /// Label of the bind group layout.
    pub layout_label: &'static str,
    /// Entries of the bind group layout, in binding order.
    pub layout_entries: Vec<LayoutEntry>,
    /// The sampler for the screen texture.
    pub sampler: Preset,
    /// Asset path of the fragment shader that is loaded.
    pub shader_path: &'static str,
    /// The pipeline that is queued.
    pub pipeline: PipelineRequest<'a>,
}

/// Name of the fragment shader's entry point.
pub open spec fn fragment_entry_point() -> Seq<char> {
    "fragment"@
}

/// The colour target of the effect: the engine's default format, no
/// blending, every channel written.
pub open spec fn effect_color_target() -> ColorTarget {
    ColorTarget {
        format: Preset::EngineDefault,
        blend: None,
        write_mask: ColorWrites { red: true, green: true, blue: true, alpha: true },
    }
}

impl<'a> PipelineRequest<'a> {
    /// Whether this is the pipeline of the effect that `config` describes:
    /// labelled with the debug label, with the effect's bind group layout as
    /// its only one, the vertex stage of the plugin, a fragment stage that
    /// enters the plugin's shader at `fragment` and writes one colour target,
    /// and everything else at its default.
    pub open spec fn requests<R>(&self, config: PluginConfig<R>) -> bool {
        &&& label_chars(self.label) == config.debug_label
        &&& self.bind_group_layout_count == 1
        &&& self.push_constant_ranges == Preset::EngineDefault
        &&& *self.vertex == config.vertex_state
        &&& self.fragment.shader_path@ == config.shader_path
        &&& self.fragment.shader_defs == Preset::EngineDefault
        &&& self.fragment.entry_point@ == fragment_entry_point()
        &&& self.fragment.target == effect_color_target()
        &&& self.primitive == Preset::EngineDefault
        &&& self.depth_stencil == Preset::EngineDefault
        &&& self.multisample == Preset::EngineDefault
        &&& !self.zero_initialize_workgroup_memory
    }
}

impl<'a> PipelineSetup<'a> {
    /// Whether this is the setup of the effect that `config` describes.
    pub open spec fn sets_up<R>(&self, config: PluginConfig<R>) -> bool {
        &&& self.layout_label@ == config.bind_group_layout_label
        &&& self.layout_entries@ == layout_entries_spec()
        &&& self.sampler == Preset::EngineDefault
        &&& self.shader_path@ == config.shader_path
        &&& self.pipeline.requests(config)
    }
}

impl<U: Clone, R: Debug + Hash + PartialEq + Eq + Clone> PostProcessPlugin<U, R> {
    /// The render pipeline of the effect.
    pub fn pipeline_request(&self) -> (request: PipelineRequest<'_>)
        ensures
            request.requests(self@),
    {
        PipelineRequest {
            label: self.debug_label(),
            bind_group_layout_count: 1,
            push_constant_ranges: Preset::EngineDefault,
            vertex: self.vertex_state(),
            fragment: FragmentStage {
                shader_path: self.shader_path(),
                shader_defs: Preset::EngineDefault,
                entry_point: "fragment",
                target: ColorTarget {
                    format: Preset::EngineDefault,
                    blend: None,
                    write_mask: ColorWrites { red: true, green: true, blue: true, alpha: true },
                },
            },
            primitive: Preset::EngineDefault,
            depth_stencil: Preset::EngineDefault,
            multisample: Preset::EngineDefault,
            zero_initialize_workgroup_memory: false,
        }
    }

    /// What is created when the pipeline is set up. The layout has the
    /// effect's four entries, the sampler is the engine's default one, and
    /// the shader that is loaded is the one the pipeline's fragment stage
    /// runs.
    pub fn pipeline_setup(&self) -> (setup: PipelineSetup<'_>)
        ensures
            setup.sets_up(self@),
    {
        PipelineSetup {
            layout_label: self.bind_group_layout_label(),
            layout_entries: bind_group_layout_entries(),
            sampler: Preset::EngineDefault,
            shader_path: self.shader_path(),
            pipeline: self.pipeline_request(),
        }
    }
}

} // verus!
