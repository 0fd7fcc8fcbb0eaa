//! The plugin: the fixed configuration of one post-processing effect.

use std::fmt::Debug;
use std::hash::Hash;
use std::marker::PhantomData;
use vstd::prelude::*;

verus! {

/// bevy's `VertexState`, the description of a pipeline's vertex stage. The
/// plugin carries the value from its constructor to the pipeline request and
/// never looks into it, so nothing is claimed about what it holds.
#[verifier::external_type_specification]
#[verifier::external_body]
pub struct ExVertexState(bevy::render::render_resource::VertexState);

/// `VertexState::clone` of bevy, which `derive` wrote: it clones the value
/// field by field. The copy is taken to be equal to the value it was made
/// from.
#[verifier::external_body]
fn clone_vertex_state(state: &bevy::render::render_resource::VertexState) -> (copy:
    bevy::render::render_resource::VertexState)
    ensures
        copy == *state,
{
    state.clone()
}

/// What a plugin was configured with.
pub struct PluginConfig<R> {
    /// Asset path of the fragment shader.
    pub shader_path: Seq<char>,
    /// Label of the effect's node in the render graph.
    pub label: R,
    /// Label of the pipeline and of the render pass in graphics debuggers.
    pub debug_label: Option<Seq<char>>,
    /// Label of the bind group layout and of the bind groups.
    pub bind_group_layout_label: Seq<char>,
    /// The vertex stage of the pipeline.
    pub vertex_state: bevy::render::render_resource::VertexState,
}

/// The characters of an optional label.
pub open spec fn label_chars(label: Option<&'static str>) -> Option<Seq<char>> {
    match label {
        Some(text) => Some(text@),
        None => None,
    }
}

/// A post-processing effect that is driven by a settings value of type `U`
/// on each camera and that runs as the render graph node `R`.
pub struct PostProcessPlugin<U: Clone, R: Debug + Hash + PartialEq + Eq + Clone> {
    shader_path: &'static str,
    label: R,
    debug_label: Option<&'static str>,
    bind_group_layout_label: &'static str,
    vertex_state: bevy::render::render_resource::VertexState,
    phantom_data: PhantomData<U>,
}

impl<U: Clone, R: Debug + Hash + PartialEq + Eq + Clone> View for PostProcessPlugin<U, R> {
    type V = PluginConfig<R>;

    closed spec fn view(&self) -> PluginConfig<R> {
        PluginConfig {
            shader_path: self.shader_path@,
            label: self.label,
            debug_label: label_chars(self.debug_label),
            bind_group_layout_label: self.bind_group_layout_label@,
            vertex_state: self.vertex_state,
        }
    }
}

impl<U: Clone, R: Debug + Hash + PartialEq + Eq + Clone> Clone for PostProcessPlugin<U, R> {
    /// A copy of the plugin, for the renderer to keep. It has the
    /// configuration of the plugin, with a clone of the label.
    fn clone(&self) -> (copy: Self)
        ensures
            cloned(self@.label, copy@.label),
            copy@ == (PluginConfig { label: copy@.label, ..self@ }),
    {
        PostProcessPlugin {
            shader_path: self.shader_path,
            label: self.label.clone(),
            debug_label: self.debug_label,
            bind_group_layout_label: self.bind_group_layout_label,
            vertex_state: clone_vertex_state(&self.vertex_state),
            phantom_data: PhantomData,
        }
    }
}

impl<U: Clone, R: Debug + Hash + PartialEq + Eq + Clone> PostProcessPlugin<U, R> {
    /// A plugin with the given configuration, which never changes afterwards.
    pub fn new(
        shader_path: &'static str,
        label: R,
        debug_label: Option<&'static str>,
        bind_group_layout_label: &'static str,
        vertex_state: bevy::render::render_resource::VertexState,
    ) -> (plugin: Self)
        ensures
            plugin@ == (PluginConfig {
                shader_path: shader_path@,
                label,
                debug_label: label_chars(debug_label),
                bind_group_layout_label: bind_group_layout_label@,
                vertex_state,
            }),
    {
        PostProcessPlugin {
            shader_path,
            label,
            debug_label,
            bind_group_layout_label,
            vertex_state,
            phantom_data: PhantomData,
        }
    }

    /// Asset path of the fragment shader.
    pub fn shader_path(&self) -> (path: &'static str)
        ensures
            path@ == self@.shader_path,
    {
        self.shader_path
    }

    /// Label of the effect's node in the render graph.
    pub fn label(&self) -> (label: &R)
        ensures
            *label == self@.label,
    {
        &self.label
    }

    /// Label of the pipeline and of the render pass in graphics debuggers.
    pub fn debug_label(&self) -> (label: Option<&'static str>)
        ensures
            label_chars(label) == self@.debug_label,
    {
        self.debug_label
    }

    /// Label of the bind group layout and of the bind groups.
    pub fn bind_group_layout_label(&self) -> (label: &'static str)
        ensures
            label@ == self@.bind_group_layout_label,
    {
        self.bind_group_layout_label
    }

    /// The vertex stage of the pipeline.
    pub fn vertex_state(&self) -> (state: &bevy::render::render_resource::VertexState)
        ensures
            *state == self@.vertex_state,
    {
        &self.vertex_state
    }
}

} // verus!
