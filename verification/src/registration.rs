//! What the plugin registers with the engine at startup.
//!
//! Registration is a list of steps for the engine to carry out. What the
//! steps mean for the render graph and for the pipelines that the engine
//! keeps is stated on [`Engine`], a mathematical picture of the two.

use crate::plugin::{PluginConfig, PostProcessPlugin};
use std::fmt::Debug;
use std::hash::Hash;
use vstd::prelude::*;

verus! {

/// A render graph of the engine.
#[derive(Clone, Copy, Debug, PartialEq, Eq, Structural)]
pub enum SubGraph {
    /// The graph that renders 2D cameras.
    Core2d,
    /// The graph that renders 3D cameras.
    Core3d,
}

/// A node of the 3D render graph that registration refers to.
#[derive(Clone, Copy, Debug, PartialEq, Eq, Structural)]
pub enum GraphNode {
    /// The engine's node at which the main pass ends.
    EndMainPass,
    /// The node of the effect, under the plugin's label.
    Effect,
    /// The engine's node at which post-processing ends.
    EndMainPassPostProcessing,
}

/// One step of registration.
#[derive(Clone, Copy, Debug, PartialEq, Eq, Structural)]
pub enum Step {
    /// Copy the cameras' settings from the simulation to the renderer in
    /// every frame.
    ExtractSettings,
    /// Write the cameras' settings to a uniform buffer in every frame, one
    /// record and one offset per camera.
    UploadSettings,
    /// Add the effect's node to the graph, under the plugin's label.
    AddNode { graph: SubGraph },
    /// Order three nodes of the graph: `first` runs before `second`, and
    /// `second` before `third`.
    AddEdges { graph: SubGraph, first: GraphNode, second: GraphNode, third: GraphNode },
    /// Keep the plugin's configuration where the node and the pipeline find
    /// it.
    InsertSettings,
    /// Set the effect's pipeline up, unless that was done before.
    InitPipeline,
}

/// The steps taken when the plugin is built. Without a renderer, nothing is
/// added to a graph.
pub open spec fn build_plan(renderer_present: bool) -> Seq<Step> {
    if renderer_present {
        seq![
            Step::ExtractSettings,
            Step::UploadSettings,
            Step::AddNode { graph: SubGraph::Core3d },
            Step::AddEdges {
                graph: SubGraph::Core3d,
                first: GraphNode::EndMainPass,
                second: GraphNode::Effect,
                third: GraphNode::EndMainPassPostProcessing,
            },
        ]
    } else {
        seq![Step::ExtractSettings, Step::UploadSettings]
    }
}

/// The steps taken when building is finished. Without a renderer there are
/// none.
pub open spec fn finish_plan(renderer_present: bool) -> Seq<Step> {
    if renderer_present {
        seq![Step::InsertSettings, Step::InitPipeline]
    } else {
        Seq::empty()
    }
}

/// A node of the 3D render graph, the effects' nodes told apart by label.
pub enum NodeRef<R> {
    EndMainPass,
    Effect(R),
    EndMainPassPostProcessing,
}

/// The part of the engine that registration changes, by the labels of the
/// effects.
#[verifier::reject_recursive_types(R)]
pub struct Engine<R> {
    /// The effects that have a node in the 3D render graph.
    pub nodes: Set<R>,
    /// The ordering edges of the 3D render graph: the first node of a pair
    /// runs before the second.
    pub edges: Set<(NodeRef<R>, NodeRef<R>)>,
    /// The configuration that is kept for each effect.
    pub settings: Map<R, PluginConfig<R>>,
    /// The configuration from which each effect's pipeline was set up.
    pub pipelines: Map<R, PluginConfig<R>>,
}

/// The node that a step means by `node` when the plugin's label is `label`.
pub open spec fn node_ref<R>(node: GraphNode, label: R) -> NodeRef<R> {
    match node {
        GraphNode::EndMainPass => NodeRef::EndMainPass,
        GraphNode::Effect => NodeRef::Effect(label),
        GraphNode::EndMainPassPostProcessing => NodeRef::EndMainPassPostProcessing,
    }
}

impl<R> Engine<R> {
    /// The engine after one step of the plugin that `config` describes.
    ///
    /// Only the 3D graph is pictured, so a step on another graph leaves the
    /// picture as it is, and so do the two steps that concern the settings
    /// type and no label. A pipeline is set up once, from the configuration
    /// that is kept at that moment; with none kept, none is set up.
    pub open spec fn apply(self, config: PluginConfig<R>, step: Step) -> Engine<R> {
        match step {
            Step::ExtractSettings | Step::UploadSettings => self,
            Step::AddNode { graph } => if graph == SubGraph::Core3d {
                Engine { nodes: self.nodes.insert(config.label), ..self }
            } else {
                self
            },
            Step::AddEdges { graph, first, second, third } => if graph == SubGraph::Core3d {
                Engine {
                    edges: self.edges.insert(
                        (node_ref(first, config.label), node_ref(second, config.label)),
                    ).insert((node_ref(second, config.label), node_ref(third, config.label))),
                    ..self
                }
            } else {
                self
            },
            Step::InsertSettings => Engine {
                settings: self.settings.insert(config.label, config),
                ..self
            },
            Step::InitPipeline => if self.pipelines.dom().contains(config.label)
                || !self.settings.dom().contains(config.label) {
                self
            } else {
                Engine {
                    pipelines: self.pipelines.insert(config.label, self.settings[config.label]),
                    ..self
                }
            },
        }
    }

    /// The engine after the given steps, taken in order.
    pub open spec fn apply_all(self, config: PluginConfig<R>, steps: Seq<Step>) -> Engine<R>
        decreases steps.len(),
    {
        if steps.len() == 0 {
            self
        } else {
            self.apply(config, steps[0]).apply_all(config, steps.subrange(1, steps.len() as int))
        }
    }

    /// The engine after the plugin that `config` describes was built and
    /// finished, with a renderer present.
    pub open spec fn register(self, config: PluginConfig<R>) -> Engine<R> {
        self.apply_all(config, build_plan(true)).apply_all(config, finish_plan(true))
    }
}

/// Whether the effect with `label` is at either end of `edge`.
pub open spec fn touches<R>(edge: (NodeRef<R>, NodeRef<R>), label: R) -> bool {
    edge.0 == NodeRef::Effect(label) || edge.1 == NodeRef::Effect(label)
}

impl<U: Clone, R: Debug + Hash + PartialEq + Eq + Clone> PostProcessPlugin<U, R> {
    /// The steps to take when the plugin is built: the settings are
    /// extracted and uploaded in every frame, and, where there is a renderer,
    /// the effect's node is added to the 3D graph between the end of the main
    /// pass and the end of post-processing.
    pub fn build_steps(&self, renderer_present: bool) -> (steps: Vec<Step>)
        ensures
            steps@ == build_plan(renderer_present),
    {
        let mut steps: Vec<Step> = Vec::new();
        steps.push(Step::ExtractSettings);
        steps.push(Step::UploadSettings);
        if renderer_present {
            steps.push(Step::AddNode { graph: SubGraph::Core3d });
            steps.push(
                Step::AddEdges {
                    graph: SubGraph::Core3d,
                    first: GraphNode::EndMainPass,
                    second: GraphNode::Effect,
                    third: GraphNode::EndMainPassPostProcessing,
                },
            );
        }
        steps
    }

    /// The steps to take when building is finished: where there is a
    /// renderer, the configuration is handed to it and the pipeline is set
    /// up.
    pub fn finish_steps(&self, renderer_present: bool) -> (steps: Vec<Step>)
        ensures
            steps@ == finish_plan(renderer_present),
    {
        let mut steps: Vec<Step> = Vec::new();
        if renderer_present {
            steps.push(Step::InsertSettings);
            steps.push(Step::InitPipeline);
        }
        steps
    }
}

/// What registration amounts to: the effect has a node, the node is ordered
/// after the end of the main pass and before the end of post-processing, the
/// configuration is kept, and, if no pipeline was set up under the label
/// before, the pipeline is set up from it. Nothing else changes.
pub proof fn lemma_register<R>(engine: Engine<R>, config: PluginConfig<R>)
    ensures
        engine.register(config).nodes == engine.nodes.insert(config.label),
        engine.register(config).edges == engine.edges.insert(
            (NodeRef::EndMainPass, NodeRef::Effect(config.label)),
        ).insert((NodeRef::Effect(config.label), NodeRef::EndMainPassPostProcessing)),
        engine.register(config).settings == engine.settings.insert(config.label, config),
        engine.register(config).pipelines == if engine.pipelines.dom().contains(config.label) {
            engine.pipelines
        } else {
            engine.pipelines.insert(config.label, config)
        },
{
    reveal_with_fuel(Engine::apply_all, 5);
    let build = build_plan(true);
    let finish = finish_plan(true);
    assert(build.subrange(1, 4).subrange(1, 3).subrange(1, 2).subrange(1, 1).len() == 0);
    assert(finish.subrange(1, 2).subrange(1, 1).len() == 0);
    let built = engine.apply_all(config, build);
    assert(built == engine.apply(config, build[0]).apply(config, build[1]).apply(
        config,
        build[2],
    ).apply(config, build[3]));
    assert(built.apply_all(config, finish) == built.apply(config, finish[0]).apply(
        config,
        finish[1],
    ));
}

/// Two plugins with different labels do not touch each other. After both
/// were registered, each has its own node and its own configuration; what
/// the engine holds under the label of the one, edges, configuration and
/// pipeline, is what it held after that one was registered alone; a label
/// under which no pipeline was set up before has the pipeline of its own
/// plugin; no edge joins the two effects unless it was there before; and the
/// order of the two registrations makes no difference.
pub proof fn lemma_distinct_labels_are_independent<R>(
    engine: Engine<R>,
    one: PluginConfig<R>,
    other: PluginConfig<R>,
)
    requires
        one.label != other.label,
    ensures
        ({
            let first = engine.register(one);
            let second = engine.register(other);
            let both = first.register(other);
            &&& both.nodes.contains(one.label) && both.nodes.contains(other.label)
            &&& both.settings[one.label] == one && both.settings[other.label] == other
            &&& both.pipelines.dom().contains(one.label) && both.pipelines.dom().contains(
                other.label,
            )
            &&& both.pipelines[one.label] == first.pipelines[one.label]
            &&& both.pipelines[other.label] == second.pipelines[other.label]
            &&& !engine.pipelines.dom().contains(one.label) ==> both.pipelines[one.label] == one
            &&& !engine.pipelines.dom().contains(other.label) ==> both.pipelines[other.label]
                == other
            &&& forall|edge: (NodeRef<R>, NodeRef<R>)|
                touches(edge, one.label) ==> (#[trigger] both.edges.contains(edge)
                    <==> first.edges.contains(edge))
            &&& forall|edge: (NodeRef<R>, NodeRef<R>)|
                touches(edge, other.label) ==> (#[trigger] both.edges.contains(edge)
                    <==> second.edges.contains(edge))
            &&& forall|edge: (NodeRef<R>, NodeRef<R>)|
                touches(edge, one.label) && touches(edge, other.label) ==> (
                #[trigger] both.edges.contains(edge) <==> engine.edges.contains(edge))
            &&& both == second.register(one)
        }),
{
    let first = engine.register(one);
    let second = engine.register(other);
    let both = first.register(other);
    let swapped = second.register(one);
    lemma_register(engine, one);
    lemma_register(first, other);
    lemma_register(engine, other);
    lemma_register(second, one);
    assert(both.nodes =~= swapped.nodes);
    assert(both.edges =~= swapped.edges);
    assert(both.settings =~= swapped.settings);
    assert(both.pipelines =~= swapped.pipelines);
}

} // verus!
