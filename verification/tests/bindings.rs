use bevy_post_process_util::bindings::{
    bind_group_entries, bind_group_layout_entries, slot_at, BindGroupEntry, BindingType,
    BoundResource, LayoutEntry, ShaderStages, Slot, UniformData, SLOT_COUNT,
};

const VERTEX_FRAGMENT: ShaderStages = ShaderStages { vertex: true, fragment: true, compute: false };

#[test]
fn slots_come_in_the_fixed_order() {
    assert_eq!(SLOT_COUNT, 4);
    assert_eq!(slot_at(0), Some(Slot::ScreenTexture));
    assert_eq!(slot_at(1), Some(Slot::ScreenSampler));
    assert_eq!(slot_at(2), Some(Slot::SettingsUniform));
    assert_eq!(slot_at(3), Some(Slot::ViewUniform));
}

#[test]
fn there_is_no_slot_past_the_last() {
    assert_eq!(slot_at(4), None);
    assert_eq!(slot_at(5), None);
    assert_eq!(slot_at(u32::MAX), None);
}

#[test]
fn binding_is_the_position_in_the_order() {
    assert_eq!(Slot::ScreenTexture.binding(), 0);
    assert_eq!(Slot::ScreenSampler.binding(), 1);
    assert_eq!(Slot::SettingsUniform.binding(), 2);
    assert_eq!(Slot::ViewUniform.binding(), 3);
    for binding in 0..SLOT_COUNT {
        assert_eq!(slot_at(binding).map(Slot::binding), Some(binding));
    }
}

#[test]
fn layout_types_of_the_slots() {
    assert_eq!(Slot::ScreenTexture.layout_type(), BindingType::Texture2d { filterable: true });
    assert_eq!(Slot::ScreenSampler.layout_type(), BindingType::Sampler { filtering: true });
    assert_eq!(
        Slot::SettingsUniform.layout_type(),
        BindingType::UniformBuffer { has_dynamic_offset: true, data: UniformData::Settings }
    );
    assert_eq!(
        Slot::ViewUniform.layout_type(),
        BindingType::UniformBuffer { has_dynamic_offset: true, data: UniformData::View }
    );
}

#[test]
fn resources_of_the_slots() {
    assert_eq!(Slot::ScreenTexture.resource(), BoundResource::SourceTexture);
    assert_eq!(Slot::ScreenSampler.resource(), BoundResource::PipelineSampler);
    assert_eq!(Slot::SettingsUniform.resource(), BoundResource::SettingsBinding);
    assert_eq!(Slot::ViewUniform.resource(), BoundResource::ViewBinding);
}

#[test]
fn layout_has_four_entries_visible_to_vertex_and_fragment() {
    let expected = vec![
        LayoutEntry {
            binding: 0,
            visibility: VERTEX_FRAGMENT,
            ty: BindingType::Texture2d { filterable: true },
        },
        LayoutEntry {
            binding: 1,
            visibility: VERTEX_FRAGMENT,
            ty: BindingType::Sampler { filtering: true },
        },
        LayoutEntry {
            binding: 2,
            visibility: VERTEX_FRAGMENT,
            ty: BindingType::UniformBuffer {
                has_dynamic_offset: true,
                data: UniformData::Settings,
            },
        },
        LayoutEntry {
            binding: 3,
            visibility: VERTEX_FRAGMENT,
            ty: BindingType::UniformBuffer { has_dynamic_offset: true, data: UniformData::View },
        },
    ];
    assert_eq!(bind_group_layout_entries(), expected);
}

#[test]
fn bind_group_has_texture_sampler_settings_view() {
    let expected = vec![
        BindGroupEntry { binding: 0, resource: BoundResource::SourceTexture },
        BindGroupEntry { binding: 1, resource: BoundResource::PipelineSampler },
        BindGroupEntry { binding: 2, resource: BoundResource::SettingsBinding },
        BindGroupEntry { binding: 3, resource: BoundResource::ViewBinding },
    ];
    assert_eq!(bind_group_entries(), expected);
}

#[test]
fn bind_group_follows_the_layout_slot_by_slot() {
    let layout = bind_group_layout_entries();
    let group = bind_group_entries();
    assert_eq!(layout.len(), group.len());
    for (position, (declared, bound)) in layout.iter().zip(group.iter()).enumerate() {
        assert_eq!(declared.binding as usize, position);
        assert_eq!(bound.binding, declared.binding);
        let slot = slot_at(declared.binding).unwrap();
        assert_eq!(declared.ty, slot.layout_type());
        assert_eq!(bound.resource, slot.resource());
    }
}
