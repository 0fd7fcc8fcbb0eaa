use bevy::asset::Handle;
use bevy::render::render_resource::{Shader, VertexState};
use bevy_post_process_util::frame::{record_pass, FrameView, GpuCommand};
use bevy_post_process_util::node::{PassTexture, Probe, ViewOffsets};
use bevy_post_process_util::pipeline::Preset;
use bevy_post_process_util::PostProcessPlugin;

#[derive(Debug, Hash, PartialEq, Eq, Clone)]
struct FogLabel;

#[derive(Clone)]
struct FogSettings;

fn fog_plugin() -> PostProcessPlugin<FogSettings, FogLabel> {
    PostProcessPlugin::new(
        "shaders/fog.wgsl",
        FogLabel,
        Some("fog_pass"),
        "fog_layout",
        VertexState {
            shader: Handle::<Shader>::default(),
            shader_defs: Vec::new(),
            entry_point: "vertex".into(),
            buffers: Vec::new(),
        },
    )
}

fn ready_view(main_texture: &'static str, other_texture: &'static str) -> FrameView<&'static str> {
    FrameView {
        pipeline_ready: true,
        settings_bound: true,
        view_bound: true,
        main_texture,
        other_texture,
    }
}

fn fog_pass(
    offsets: ViewOffsets,
    source: &'static str,
    destination: &'static str,
) -> Vec<GpuCommand<&'static str>> {
    vec![
        GpuCommand::BeginRenderPass { color_target: destination, ops: Preset::EngineDefault },
        GpuCommand::SetRenderPipeline,
        GpuCommand::SetBindGroup {
            index: 0,
            source_texture: source,
            settings_offset: offsets.settings_index,
            view_offset: offsets.view_offset,
        },
        GpuCommand::Draw { first_vertex: 0, vertices_end: 3, first_instance: 0, instances_end: 1 },
    ]
}

#[test]
fn view_answers_lookups() {
    let view = FrameView {
        pipeline_ready: true,
        settings_bound: false,
        view_bound: true,
        main_texture: 1u8,
        other_texture: 2u8,
    };
    assert!(view.has(Probe::Pipeline));
    assert!(!view.has(Probe::SettingsBinding));
    assert!(view.has(Probe::ViewBinding));
}

#[test]
fn post_process_write_swaps_the_main_textures() {
    let mut view = ready_view("a", "b");
    assert_eq!(view.post_process_write(), ("a", "b"));
    assert_eq!(view, ready_view("b", "a"));
    assert_eq!(view.post_process_write(), ("b", "a"));
    assert_eq!(view, ready_view("a", "b"));
}

#[test]
fn record_pass_appends_four_commands() {
    let plan = fog_plugin().pass_plan(ViewOffsets { settings_index: 64, view_offset: 128 });
    let mut commands = vec![GpuCommand::SetRenderPipeline];
    record_pass(&plan, "read", "written", &mut commands);
    let mut expected = vec![GpuCommand::SetRenderPipeline];
    expected.extend(fog_pass(ViewOffsets { settings_index: 64, view_offset: 128 }, "read", "written"));
    assert_eq!(commands, expected);
}

#[test]
fn record_pass_follows_the_plan() {
    let mut plan = fog_plugin().pass_plan(ViewOffsets { settings_index: 1, view_offset: 2 });
    plan.color_target = PassTexture::Source;
    plan.bind_group_index = 5;
    plan.first_vertex = 3;
    plan.vertices_end = 9;
    plan.first_instance = 2;
    plan.instances_end = 4;
    let mut commands = Vec::new();
    record_pass(&plan, 10u64, 20u64, &mut commands);
    assert_eq!(
        commands,
        vec![
            GpuCommand::BeginRenderPass { color_target: 10, ops: Preset::EngineDefault },
            GpuCommand::SetRenderPipeline,
            GpuCommand::SetBindGroup {
                index: 5,
                source_texture: 10,
                settings_offset: 1,
                view_offset: 2
            },
            GpuCommand::Draw {
                first_vertex: 3,
                vertices_end: 9,
                first_instance: 2,
                instances_end: 4
            },
        ]
    );
}

#[test]
fn ready_view_is_drawn_from_main_into_other() {
    let offsets = ViewOffsets { settings_index: 256, view_offset: 512 };
    let mut view = ready_view("a", "b");
    let commands = fog_plugin().run_view(offsets, &mut view);
    assert_eq!(commands, fog_pass(offsets, "a", "b"));
    assert_eq!(view, ready_view("b", "a"));
}

#[test]
fn uncompiled_pipeline_records_nothing() {
    let offsets = ViewOffsets { settings_index: 256, view_offset: 512 };
    for settings_bound in [false, true] {
        for view_bound in [false, true] {
            let mut view = FrameView {
                pipeline_ready: false,
                settings_bound,
                view_bound,
                main_texture: "a",
                other_texture: "b",
            };
            let commands = fog_plugin().run_view(offsets, &mut view);
            assert_eq!(commands, Vec::new());
            assert_eq!(commands.len(), 0);
            assert_eq!(
                view,
                FrameView {
                    pipeline_ready: false,
                    settings_bound,
                    view_bound,
                    main_texture: "a",
                    other_texture: "b",
                }
            );
        }
    }
}

#[test]
fn missing_binding_records_nothing() {
    let offsets = ViewOffsets { settings_index: 0, view_offset: 0 };
    let mut without_settings = FrameView {
        pipeline_ready: true,
        settings_bound: false,
        view_bound: true,
        main_texture: 1u32,
        other_texture: 2u32,
    };
    assert_eq!(fog_plugin().run_view(offsets, &mut without_settings), Vec::new());
    assert_eq!(without_settings.main_texture, 1);
    assert_eq!(without_settings.other_texture, 2);
    let mut without_view = FrameView {
        pipeline_ready: true,
        settings_bound: true,
        view_bound: false,
        main_texture: 1u32,
        other_texture: 2u32,
    };
    assert_eq!(fog_plugin().run_view(offsets, &mut without_view), Vec::new());
    assert_eq!(without_view.main_texture, 1);
    assert_eq!(without_view.other_texture, 2);
}

#[test]
fn effect_resumes_once_the_pipeline_is_compiled() {
    let plugin = fog_plugin();
    let offsets = ViewOffsets { settings_index: 0, view_offset: 256 };
    let mut view = FrameView {
        pipeline_ready: false,
        settings_bound: true,
        view_bound: true,
        main_texture: "a",
        other_texture: "b",
    };
    assert_eq!(plugin.run_view(offsets, &mut view), Vec::new());
    assert_eq!(plugin.run_view(offsets, &mut view), Vec::new());
    view.pipeline_ready = true;
    assert_eq!(plugin.run_view(offsets, &mut view), fog_pass(offsets, "a", "b"));
}

#[test]
fn each_camera_is_drawn_with_its_own_offsets() {
    let plugin = fog_plugin();
    let count: u32 = 6;
    let mut seen = Vec::new();
    for camera in 0..count {
        let offsets = ViewOffsets { settings_index: camera * 256, view_offset: camera * 512 + 64 };
        let mut view = ready_view("a", "b");
        let commands = plugin.run_view(offsets, &mut view);
        let bound: Vec<(u32, u32)> = commands
            .iter()
            .filter_map(|command| match command {
                GpuCommand::SetBindGroup { settings_offset, view_offset, .. } => {
                    Some((*settings_offset, *view_offset))
                }
                _ => None,
            })
            .collect();
        assert_eq!(bound, vec![(camera * 256, camera * 512 + 64)]);
        assert!(!seen.contains(&bound[0].0));
        seen.push(bound[0].0);
    }
    assert_eq!(seen, vec![0, 256, 512, 768, 1024, 1280]);
}

#[test]
fn cameras_that_are_not_ready_do_not_disturb_the_others() {
    let plugin = fog_plugin();
    let mut first = ready_view("a", "b");
    let mut second = FrameView {
        pipeline_ready: true,
        settings_bound: true,
        view_bound: false,
        main_texture: "c",
        other_texture: "d",
    };
    let mut third = ready_view("e", "f");
    let first_offsets = ViewOffsets { settings_index: 0, view_offset: 0 };
    let second_offsets = ViewOffsets { settings_index: 256, view_offset: 256 };
    let third_offsets = ViewOffsets { settings_index: 512, view_offset: 512 };
    assert_eq!(plugin.run_view(first_offsets, &mut first), fog_pass(first_offsets, "a", "b"));
    assert_eq!(plugin.run_view(second_offsets, &mut second), Vec::new());
    assert_eq!(plugin.run_view(third_offsets, &mut third), fog_pass(third_offsets, "e", "f"));
    assert_eq!(second.main_texture, "c");
    assert_eq!(third.main_texture, "f");
}

#[test]
fn current_texture_is_the_previous_destination() {
    let plugin = fog_plugin();
    let offsets = ViewOffsets { settings_index: 0, view_offset: 0 };
    let mut view = ready_view("a", "b");
    let first = plugin.run_view(offsets, &mut view);
    assert_eq!(first[0], GpuCommand::BeginRenderPass { color_target: "b", ops: Preset::EngineDefault });
    assert_eq!(view.main_texture, "b");
    assert_eq!(view.other_texture, "a");
    let second = plugin.run_view(offsets, &mut view);
    assert_eq!(second, fog_pass(offsets, "b", "a"));
    assert_eq!(view.main_texture, "a");
    assert_eq!(view.other_texture, "b");
}

#[test]
fn rerun_from_the_same_view_records_the_same() {
    let plugin = fog_plugin();
    let offsets = ViewOffsets { settings_index: 768, view_offset: 1280 };
    let mut once = ready_view("a", "b");
    let mut again = ready_view("a", "b");
    let first = plugin.run_view(offsets, &mut once);
    let second = plugin.run_view(offsets, &mut again);
    assert_eq!(first, second);
    assert_eq!(once, again);
    let mut skipped_once = FrameView {
        pipeline_ready: false,
        settings_bound: true,
        view_bound: true,
        main_texture: "a",
        other_texture: "b",
    };
    let mut skipped_again = FrameView {
        pipeline_ready: false,
        settings_bound: true,
        view_bound: true,
        main_texture: "a",
        other_texture: "b",
    };
    assert_eq!(
        plugin.run_view(offsets, &mut skipped_once),
        plugin.run_view(offsets, &mut skipped_again)
    );
    assert_eq!(skipped_once, skipped_again);
}

#[test]
fn view_with_one_texture_twice() {
    let offsets = ViewOffsets { settings_index: 0, view_offset: 0 };
    let mut view = ready_view("only", "only");
    assert_eq!(fog_plugin().run_view(offsets, &mut view), fog_pass(offsets, "only", "only"));
    assert_eq!(view, ready_view("only", "only"));
}
