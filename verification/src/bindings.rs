//! The bind group of the effect: which resource sits in which shader slot.
//!
//! The slot order is written down once, in [`slot_order`]. The layout that is
//! declared when the pipeline is set up and the bind group that is built for
//! every view are both derived from it, so the two cannot drift apart.

use vstd::prelude::*;

verus! {

/// A shader-visible resource of the effect.
#[derive(Clone, Copy, Debug, PartialEq, Eq, Structural)]
pub enum Slot {
    /// The texture that holds the image rendered so far.
    ScreenTexture,
    /// The sampler used to read the screen texture.
    ScreenSampler,
    /// The uniform buffer with the per-camera effect settings.
    SettingsUniform,
    /// The uniform buffer with the per-camera view data.
    ViewUniform,
}

/// Which uniform buffer an entry stands for.
#[derive(Clone, Copy, Debug, PartialEq, Eq, Structural)]
pub enum UniformData {
    /// The effect settings of the camera.
    Settings,
    /// The view data of the camera.
    View,
}

/// What a layout entry declares about the resource bound at its slot.
#[derive(Clone, Copy, Debug, PartialEq, Eq, Structural)]
pub enum BindingType {
    /// A two-dimensional, single-sampled texture read as floats.
    Texture2d { filterable: bool },
    /// A sampler.
    Sampler { filtering: bool },
    /// A uniform buffer.
    UniformBuffer { has_dynamic_offset: bool, data: UniformData },
}

/// The shader stages that can see a binding.
#[derive(Clone, Copy, Debug, PartialEq, Eq, Structural)]
pub struct ShaderStages {
    pub vertex: bool,
    pub fragment: bool,
    pub compute: bool,
}

/// One entry of the bind group layout.
#[derive(Clone, Copy, Debug, PartialEq, Eq, Structural)]
pub struct LayoutEntry {
    pub binding: u32,
    pub visibility: ShaderStages,
    pub ty: BindingType,
}

/// The resource that a bind group entry binds.
#[derive(Clone, Copy, Debug, PartialEq, Eq, Structural)]
pub enum BoundResource {
    /// The view's current main texture, the source of the pass.
    SourceTexture,
    /// The sampler that was created together with the pipeline.
    PipelineSampler,
    /// The binding of the buffer that holds every camera's settings.
    SettingsBinding,
    /// The binding of the buffer that holds every camera's view data.
    ViewBinding,
}

/// One entry of the bind group that is built for a view.
#[derive(Clone, Copy, Debug, PartialEq, Eq, Structural)]
pub struct BindGroupEntry {
    pub binding: u32,
    pub resource: BoundResource,
}

/// Number of slots in the bind group.
pub const SLOT_COUNT: u32 = 4;

/// The slots in binding order: the position of a slot is its binding index.
pub open spec fn slot_order() -> Seq<Slot> {
    seq![Slot::ScreenTexture, Slot::ScreenSampler, Slot::SettingsUniform, Slot::ViewUniform]
}

/// The stages to which every entry of the layout is visible.
pub open spec fn layout_visibility() -> ShaderStages {
    ShaderStages { vertex: true, fragment: true, compute: false }
}

/// What the layout declares for a slot.
pub open spec fn declared_type(slot: Slot) -> BindingType {
    match slot {
        Slot::ScreenTexture => BindingType::Texture2d { filterable: true },
        Slot::ScreenSampler => BindingType::Sampler { filtering: true },
        Slot::SettingsUniform => BindingType::UniformBuffer {
            has_dynamic_offset: true,
            data: UniformData::Settings,
        },
        Slot::ViewUniform => BindingType::UniformBuffer {
            has_dynamic_offset: true,
            data: UniformData::View,
        },
    }
}

/// The resource that a view binds at a slot.
pub open spec fn bound_resource(slot: Slot) -> BoundResource {
    match slot {
        Slot::ScreenTexture => BoundResource::SourceTexture,
        Slot::ScreenSampler => BoundResource::PipelineSampler,
        Slot::SettingsUniform => BoundResource::SettingsBinding,
        Slot::ViewUniform => BoundResource::ViewBinding,
    }
}

/// The layout entry at binding index `i`.
pub open spec fn layout_entry_at(i: int) -> LayoutEntry {
    LayoutEntry {
        binding: i as u32,
        visibility: layout_visibility(),
        ty: declared_type(slot_order()[i]),
    }
}

/// The bind group entry at binding index `i`.
pub open spec fn bind_group_entry_at(i: int) -> BindGroupEntry {
    BindGroupEntry { binding: i as u32, resource: bound_resource(slot_order()[i]) }
}

/// The whole bind group layout.
pub open spec fn layout_entries_spec() -> Seq<LayoutEntry> {
    Seq::new(slot_order().len(), |i: int| layout_entry_at(i))
}

/// The whole bind group of a view.
pub open spec fn bind_group_entries_spec() -> Seq<BindGroupEntry> {
    Seq::new(slot_order().len(), |i: int| bind_group_entry_at(i))
}

/// The uniform buffers among the first `n` entries of the layout that take a
/// dynamic offset, in binding order. A bind group is set with one offset for
/// each of them, in this order.
pub open spec fn dynamic_uniforms(n: int) -> Seq<UniformData>
    decreases n,
{
    if n <= 0 {
        Seq::empty()
    } else {
        match layout_entry_at(n - 1).ty {
            BindingType::UniformBuffer { has_dynamic_offset: true, data } => dynamic_uniforms(
                n - 1,
            ).push(data),
            _ => dynamic_uniforms(n - 1),
        }
    }
}

/// Whether a resource is of the kind that a layout entry declares.
pub open spec fn fits(ty: BindingType, resource: BoundResource) -> bool {
    match ty {
        BindingType::Texture2d { .. } => resource == BoundResource::SourceTexture,
        BindingType::Sampler { .. } => resource == BoundResource::PipelineSampler,
        BindingType::UniformBuffer { data: UniformData::Settings, .. } => resource
            == BoundResource::SettingsBinding,
        BindingType::UniformBuffer { data: UniformData::View, .. } => resource
            == BoundResource::ViewBinding,
    }
}

/// The slot with the given binding index, if there is one.
pub fn slot_at(binding: u32) -> (slot: Option<Slot>)
    ensures
        binding < SLOT_COUNT ==> slot == Some(slot_order()[binding as int]),
        binding >= SLOT_COUNT ==> slot.is_none(),
{
    if binding == 0 {
        Some(Slot::ScreenTexture)
    } else if binding == 1 {
        Some(Slot::ScreenSampler)
    } else if binding == 2 {
        Some(Slot::SettingsUniform)
    } else if binding == 3 {
        Some(Slot::ViewUniform)
    } else {
        None
    }
}

impl Slot {
    /// The binding index of the slot.
    pub open spec fn index(self) -> int {
        match self {
            Slot::ScreenTexture => 0,
            Slot::ScreenSampler => 1,
            Slot::SettingsUniform => 2,
            Slot::ViewUniform => 3,
        }
    }

    /// The binding index of the slot: its position in the slot order.
    pub fn binding(self) -> (binding: u32)
        ensures
            binding == self.index(),
            binding < SLOT_COUNT,
            slot_order()[binding as int] == self,
    {
        match self {
            Slot::ScreenTexture => 0,
            Slot::ScreenSampler => 1,
            Slot::SettingsUniform => 2,
            Slot::ViewUniform => 3,
        }
    }

    /// What the layout declares for the slot.
    pub fn layout_type(self) -> (ty: BindingType)
        ensures
            ty == declared_type(self),
    {
        match self {
            Slot::ScreenTexture => BindingType::Texture2d { filterable: true },
            Slot::ScreenSampler => BindingType::Sampler { filtering: true },
            Slot::SettingsUniform => BindingType::UniformBuffer {
                has_dynamic_offset: true,
                data: UniformData::Settings,
            },
            Slot::ViewUniform => BindingType::UniformBuffer {
                has_dynamic_offset: true,
                data: UniformData::View,
            },
        }
    }

    /// The resource that a view binds at the slot.
    pub fn resource(self) -> (resource: BoundResource)
        ensures
            resource == bound_resource(self),
    {
        match self {
            Slot::ScreenTexture => BoundResource::SourceTexture,
            Slot::ScreenSampler => BoundResource::PipelineSampler,
            Slot::SettingsUniform => BoundResource::SettingsBinding,
            Slot::ViewUniform => BoundResource::ViewBinding,
        }
    }
}

/// The entries of the bind group layout, in binding order, each visible to
/// the vertex and the fragment stage.
pub fn bind_group_layout_entries() -> (entries: Vec<LayoutEntry>)
    ensures
        entries@ == layout_entries_spec(),
{
    let visibility = ShaderStages { vertex: true, fragment: true, compute: false };
    let mut entries: Vec<LayoutEntry> = Vec::new();
    let mut binding: u32 = 0;
    while binding < SLOT_COUNT
        invariant
            binding <= SLOT_COUNT,
            visibility == layout_visibility(),
            entries@.len() == binding,
            forall|i: int| 0 <= i < binding ==> entries@[i] == layout_entry_at(i),
        decreases SLOT_COUNT - binding,
    {
        match slot_at(binding) {
            Some(slot) => {
                entries.push(LayoutEntry { binding, visibility, ty: slot.layout_type() });
            },
            None => {},
        }
        binding = binding + 1;
    }
    entries
}

/// The entries of the bind group of a view, in binding order.
pub fn bind_group_entries() -> (entries: Vec<BindGroupEntry>)
    ensures
        entries@ == bind_group_entries_spec(),
{
    let mut entries: Vec<BindGroupEntry> = Vec::new();
    let mut binding: u32 = 0;
    while binding < SLOT_COUNT
        invariant
            binding <= SLOT_COUNT,
            entries@.len() == binding,
            forall|i: int| 0 <= i < binding ==> entries@[i] == bind_group_entry_at(i),
        decreases SLOT_COUNT - binding,
    {
        match slot_at(binding) {
            Some(slot) => {
                entries.push(BindGroupEntry { binding, resource: slot.resource() });
            },
            None => {},
        }
        binding = binding + 1;
    }
    entries
}

/// The bind group matches the layout slot by slot: both have one entry per
/// slot, the entries at one position carry the same binding index, which is
/// that position, and the resource bound there is of the declared kind.
pub proof fn lemma_bind_group_matches_layout()
    ensures
        layout_entries_spec().len() == bind_group_entries_spec().len(),
        layout_entries_spec().len() == SLOT_COUNT,
        forall|i: int|
            0 <= i < layout_entries_spec().len() ==> {
                &&& (#[trigger] layout_entries_spec()[i]).binding == i
                &&& bind_group_entries_spec()[i].binding == i
                &&& fits(layout_entries_spec()[i].ty, bind_group_entries_spec()[i].resource)
            },
{
}

/// The layout has two entries with a dynamic offset: the settings first,
/// then the view.
pub proof fn lemma_dynamic_uniforms()
    ensures
        dynamic_uniforms(SLOT_COUNT as int) == seq![UniformData::Settings, UniformData::View],
{
    reveal_with_fuel(dynamic_uniforms, 5);
    assert(dynamic_uniforms(4) =~= seq![UniformData::Settings, UniformData::View]);
}

/// The slot order is, in this order: screen texture, sampler, settings
/// uniform, view uniform; and no slot occurs twice.
pub proof fn lemma_slot_order()
    ensures
        slot_order() =~= seq![
            Slot::ScreenTexture,
            Slot::ScreenSampler,
            Slot::SettingsUniform,
            Slot::ViewUniform,
        ],
        slot_order().len() == SLOT_COUNT,
        forall|slot: Slot| 0 <= #[trigger] slot.index() < SLOT_COUNT && slot_order()[slot.index()] == slot,
        forall|i: int, j: int|
            0 <= i < j < slot_order().len() ==> slot_order()[i] != slot_order()[j],
{
}

} // verus!
