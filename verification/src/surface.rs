//! Surface treatments, material slots and the texture layers chosen for them.

use crate::render_error::RenderError;
use vstd::prelude::*;

verus! {

/// Physical texture layers that one renderer can hold.
pub const MAX_TEXTURE_LAYERS: u32 = 32;

/// Logical material slots of one scene.
pub const MATERIAL_SLOT_COUNT: usize = 16;

/// Number of the last surface treatment that the renderer knows.
pub const LAST_PATTERN: u32 = 12;

/// Typed procedural surface treatment, independent from a physical texture layer.
///
/// Texture-array indices are an upload detail and must never be used as material
/// semantics. A vertex may inherit its logical slot's pattern or override it for
/// heterogeneous geometry such as neighbouring buildings and vehicle glazing.
#[derive(Clone, Copy, Debug, PartialEq, Eq, Structural)]
pub struct SurfacePattern {
    /// Number that the shader knows the treatment by.
    pub code: u32,
}

impl SurfacePattern {
    /// Inherit the pattern selected for the vertex's logical material slot.
    pub open spec fn spec_inherit() -> SurfacePattern {
        SurfacePattern { code: 0 }
    }

    /// Inherit the pattern selected for the vertex's logical material slot.
    #[verifier::when_used_as_spec(spec_inherit)]
    pub fn inherit() -> (r: SurfacePattern)
        ensures
            r == Self::spec_inherit(),
    {
        SurfacePattern { code: 0 }
    }

    /// Smooth painted or unpatterned surface.
    pub open spec fn spec_smooth() -> SurfacePattern {
        SurfacePattern { code: 1 }
    }

    /// Smooth painted or unpatterned surface.
    #[verifier::when_used_as_spec(spec_smooth)]
    pub fn smooth() -> (r: SurfacePattern)
        ensures
            r == Self::spec_smooth(),
    {
        SurfacePattern { code: 1 }
    }

    /// Masonry brick bond.
    pub open spec fn spec_brick() -> SurfacePattern {
        SurfacePattern { code: 2 }
    }

    /// Masonry brick bond.
    #[verifier::when_used_as_spec(spec_brick)]
    pub fn brick() -> (r: SurfacePattern)
        ensures
            r == Self::spec_brick(),
    {
        SurfacePattern { code: 2 }
    }

    /// Narrow vertical metal or composite cladding panels.
    pub open spec fn spec_vertical_cladding() -> SurfacePattern {
        SurfacePattern { code: 3 }
    }

    /// Narrow vertical metal or composite cladding panels.
    #[verifier::when_used_as_spec(spec_vertical_cladding)]
    pub fn vertical_cladding() -> (r: SurfacePattern)
        ensures
            r == Self::spec_vertical_cladding(),
    {
        SurfacePattern { code: 3 }
    }

    /// Repeated roof tile or sheet seams.
    pub open spec fn spec_roof_seams() -> SurfacePattern {
        SurfacePattern { code: 4 }
    }

    /// Repeated roof tile or sheet seams.
    #[verifier::when_used_as_spec(spec_roof_seams)]
    pub fn roof_seams() -> (r: SurfacePattern)
        ensures
            r == Self::spec_roof_seams(),
    {
        SurfacePattern { code: 4 }
    }

    /// Coarse asphalt aggregate.
    pub open spec fn spec_asphalt() -> SurfacePattern {
        SurfacePattern { code: 5 }
    }

    /// Coarse asphalt aggregate.
    #[verifier::when_used_as_spec(spec_asphalt)]
    pub fn asphalt() -> (r: SurfacePattern)
        ensures
            r == Self::spec_asphalt(),
    {
        SurfacePattern { code: 5 }
    }

    /// Restaurant or building window glass, eligible for phase-gated emission.
    pub open spec fn spec_building_glass() -> SurfacePattern {
        SurfacePattern { code: 6 }
    }

    /// Restaurant or building window glass, eligible for phase-gated emission.
    #[verifier::when_used_as_spec(spec_building_glass)]
    pub fn building_glass() -> (r: SurfacePattern)
        ensures
            r == Self::spec_building_glass(),
    {
        SurfacePattern { code: 6 }
    }

    /// Vehicle glazing, which reflects but never emits like occupied windows.
    pub open spec fn spec_vehicle_glass() -> SurfacePattern {
        SurfacePattern { code: 7 }
    }

    /// Vehicle glazing, which reflects but never emits like occupied windows.
    #[verifier::when_used_as_spec(spec_vehicle_glass)]
    pub fn vehicle_glass() -> (r: SurfacePattern)
        ensures
            r == Self::spec_vehicle_glass(),
    {
        SurfacePattern { code: 7 }
    }

    /// Background wall with a procedural window grid.
    pub open spec fn spec_background_windows() -> SurfacePattern {
        SurfacePattern { code: 8 }
    }

    /// Background wall with a procedural window grid.
    #[verifier::when_used_as_spec(spec_background_windows)]
    pub fn background_windows() -> (r: SurfacePattern)
        ensures
            r == Self::spec_background_windows(),
    {
        SurfacePattern { code: 8 }
    }

    /// Pizza Hut sign artwork.
    pub open spec fn spec_pizza_hut_sign() -> SurfacePattern {
        SurfacePattern { code: 9 }
    }

    /// Pizza Hut sign artwork.
    #[verifier::when_used_as_spec(spec_pizza_hut_sign)]
    pub fn pizza_hut_sign() -> (r: SurfacePattern)
        ensures
            r == Self::spec_pizza_hut_sign(),
    {
        SurfacePattern { code: 9 }
    }

    /// Generic unbranded road, pole, or luminaire panel.
    pub open spec fn spec_generic_sign() -> SurfacePattern {
        SurfacePattern { code: 10 }
    }

    /// Generic unbranded road, pole, or luminaire panel.
    #[verifier::when_used_as_spec(spec_generic_sign)]
    pub fn generic_sign() -> (r: SurfacePattern)
        ensures
            r == Self::spec_generic_sign(),
    {
        SurfacePattern { code: 10 }
    }

    /// Brick background wall with an occupied-window grid on vertical faces.
    pub open spec fn spec_background_windows_brick() -> SurfacePattern {
        SurfacePattern { code: 11 }
    }

    /// Brick background wall with an occupied-window grid on vertical faces.
    #[verifier::when_used_as_spec(spec_background_windows_brick)]
    pub fn background_windows_brick() -> (r: SurfacePattern)
        ensures
            r == Self::spec_background_windows_brick(),
    {
        SurfacePattern { code: 11 }
    }

    /// Clad background wall with an occupied-window grid on vertical faces.
    pub open spec fn spec_background_windows_cladding() -> SurfacePattern {
        SurfacePattern { code: 12 }
    }

    /// Clad background wall with an occupied-window grid on vertical faces.
    #[verifier::when_used_as_spec(spec_background_windows_cladding)]
    pub fn background_windows_cladding() -> (r: SurfacePattern)
        ensures
            r == Self::spec_background_windows_cladding(),
    {
        SurfacePattern { code: 12 }
    }

    /// Returns the stable shader representation.
    pub open spec fn spec_as_u32(self) -> u32 {
        self.code
    }

    /// Returns the stable shader representation.
    #[verifier::when_used_as_spec(spec_as_u32)]
    pub fn as_u32(self) -> (r: u32)
        ensures
            r == self.spec_as_u32(),
    {
        self.code
    }

    /// Whether the renderer knows the treatment.
    pub open spec fn spec_is_known(self) -> bool {
        self.code <= LAST_PATTERN
    }

    /// Whether the renderer knows the treatment.
    #[verifier::when_used_as_spec(spec_is_known)]
    pub fn is_known(self) -> (r: bool)
        ensures
            r == self.spec_is_known(),
    {
        self.code <= LAST_PATTERN
    }
}

impl Default for SurfacePattern {
    fn default() -> (r: SurfacePattern)
        ensures
            r == SurfacePattern::inherit(),
    {
        SurfacePattern::inherit()
    }
}

/// Appearance material used by the compact built-in scene shader.
#[derive(Clone, Copy, Debug, PartialEq, Eq, Structural)]
pub enum MaterialSlot {
    /// Roof finish.
    Roof,
    /// Exterior wall finish.
    Wall,
    /// Ground or paving finish.
    Ground,
    /// Neutral foreground/background occluder finish.
    Occluder,
    /// Reflective window glazing.
    Glass,
    /// Light facade trim, mullions, and curb faces.
    Trim,
    /// Branded or generic illuminated signage.
    Sign,
    /// Parking lot and road asphalt.
    Asphalt,
    /// Tree canopies and planted shrubs.
    Foliage,
    /// Tree trunks and utility poles.
    Trunk,
    /// Distant commercial and city building shells.
    BackgroundWall,
    /// Rooftop equipment, vehicles, and utility hardware.
    Metal,
    /// Painted parking and road markings.
    Marking,
    /// Concrete curbs, paths, and foundations.
    Concrete,
    /// Weathered outline left after original signage was removed.
    GhostSign,
    /// Replacement tenant branding on a former restaurant.
    TenantSign,
}

impl MaterialSlot {
    /// Returns the stable integer consumed by the render shader.
    pub open spec fn spec_as_u32(self) -> u32 {
        match self {
            MaterialSlot::Roof => 0,
            MaterialSlot::Wall => 1,
            MaterialSlot::Ground => 2,
            MaterialSlot::Occluder => 3,
            MaterialSlot::Glass => 4,
            MaterialSlot::Trim => 5,
            MaterialSlot::Sign => 6,
            MaterialSlot::Asphalt => 7,
            MaterialSlot::Foliage => 8,
            MaterialSlot::Trunk => 9,
            MaterialSlot::BackgroundWall => 10,
            MaterialSlot::Metal => 11,
            MaterialSlot::Marking => 12,
            MaterialSlot::Concrete => 13,
            MaterialSlot::GhostSign => 14,
            MaterialSlot::TenantSign => 15,
        }
    }

    /// Returns the stable integer consumed by the render shader.
    #[verifier::when_used_as_spec(spec_as_u32)]
    pub fn as_u32(self) -> (r: u32)
        ensures
            r == self.spec_as_u32(),
    {
        match self {
            MaterialSlot::Roof => 0,
            MaterialSlot::Wall => 1,
            MaterialSlot::Ground => 2,
            MaterialSlot::Occluder => 3,
            MaterialSlot::Glass => 4,
            MaterialSlot::Trim => 5,
            MaterialSlot::Sign => 6,
            MaterialSlot::Asphalt => 7,
            MaterialSlot::Foliage => 8,
            MaterialSlot::Trunk => 9,
            MaterialSlot::BackgroundWall => 10,
            MaterialSlot::Metal => 11,
            MaterialSlot::Marking => 12,
            MaterialSlot::Concrete => 13,
            MaterialSlot::GhostSign => 14,
            MaterialSlot::TenantSign => 15,
        }
    }
}

impl Default for MaterialSlot {
    fn default() -> (r: MaterialSlot)
        ensures
            r == MaterialSlot::Roof,
    {
        MaterialSlot::Roof
    }
}

/// Per-scene mapping from logical surface slots to resident PBR texture layers.
#[derive(Clone, Copy, Debug, PartialEq, Eq)]
pub struct MaterialSelection {
    /// Physical texture layer of each slot.
    pub layers: [u32; 16],
    /// Procedural treatment of each slot.
    pub patterns: [SurfacePattern; 16],
}

/// The treatment that a slot has until another is chosen.
pub open spec fn spec_default_surface_pattern(index: usize) -> SurfacePattern {
    if index == 0 {
        SurfacePattern::roof_seams()
    } else if index == 4 {
        SurfacePattern::building_glass()
    } else if index == 6 {
        SurfacePattern::pizza_hut_sign()
    } else if index == 7 {
        SurfacePattern::asphalt()
    } else if index == 10 {
        SurfacePattern::background_windows()
    } else {
        SurfacePattern::smooth()
    }
}

/// The treatment that a slot has until another is chosen.
#[verifier::when_used_as_spec(spec_default_surface_pattern)]
pub fn default_surface_pattern(index: usize) -> (r: SurfacePattern)
    ensures
        r == spec_default_surface_pattern(index),
{
    if index == 0 {
        SurfacePattern::roof_seams()
    } else if index == 4 {
        SurfacePattern::building_glass()
    } else if index == 6 {
        SurfacePattern::pizza_hut_sign()
    } else if index == 7 {
        SurfacePattern::asphalt()
    } else if index == 10 {
        SurfacePattern::background_windows()
    } else {
        SurfacePattern::smooth()
    }
}

/// The treatments that all slots have until others are chosen.
pub open spec fn spec_default_patterns() -> [SurfacePattern; 16] {
    [
        default_surface_pattern(0),
        default_surface_pattern(1),
        default_surface_pattern(2),
        default_surface_pattern(3),
        default_surface_pattern(4),
        default_surface_pattern(5),
        default_surface_pattern(6),
        default_surface_pattern(7),
        default_surface_pattern(8),
        default_surface_pattern(9),
        default_surface_pattern(10),
        default_surface_pattern(11),
        default_surface_pattern(12),
        default_surface_pattern(13),
        default_surface_pattern(14),
        default_surface_pattern(15),
    ]
}

/// The treatments that all slots have until others are chosen.
#[verifier::when_used_as_spec(spec_default_patterns)]
pub fn default_patterns() -> (r: [SurfacePattern; 16])
    ensures
        r == spec_default_patterns(),
{
    [
        default_surface_pattern(0),
        default_surface_pattern(1),
        default_surface_pattern(2),
        default_surface_pattern(3),
        default_surface_pattern(4),
        default_surface_pattern(5),
        default_surface_pattern(6),
        default_surface_pattern(7),
        default_surface_pattern(8),
        default_surface_pattern(9),
        default_surface_pattern(10),
        default_surface_pattern(11),
        default_surface_pattern(12),
        default_surface_pattern(13),
        default_surface_pattern(14),
        default_surface_pattern(15),
    ]
}

impl MaterialSelection {
    /// Every slot with the layer of its own number and its own treatment.
    pub open spec fn spec_standard() -> MaterialSelection {
        MaterialSelection {
            layers: [0, 1, 2, 3, 4, 5, 6, 7, 8, 9, 10, 11, 12, 13, 14, 15],
            patterns: default_patterns(),
        }
    }

    /// Every slot with the layer of its own number and its own treatment.
    #[verifier::when_used_as_spec(spec_standard)]
    pub fn standard() -> (r: MaterialSelection)
        ensures
            r == Self::spec_standard(),
    {
        MaterialSelection {
            layers: [0, 1, 2, 3, 4, 5, 6, 7, 8, 9, 10, 11, 12, 13, 14, 15],
            patterns: default_patterns(),
        }
    }

    /// Selects a prepared physical texture layer for one logical material.
    pub fn set(&mut self, slot: MaterialSlot, texture_layer: u32) -> (r: Result<(), RenderError>)
        ensures
            r == (if texture_layer >= MAX_TEXTURE_LAYERS {
                Err(RenderError::InvalidTextureData)
            } else {
                Ok(())
            }),
            final(self).patterns == old(self).patterns,
            final(self).layers@ == (if texture_layer >= MAX_TEXTURE_LAYERS {
                old(self).layers@
            } else {
                old(self).layers@.update(slot.as_u32() as int, texture_layer)
            }),
    {
        if texture_layer >= MAX_TEXTURE_LAYERS {
            return Err(RenderError::InvalidTextureData);
        }
        self.layers[slot.as_u32() as usize] = texture_layer;
        Ok(())
    }

    /// Returns the selected physical texture layer.
    pub fn get(self, slot: MaterialSlot) -> (r: u32)
        ensures
            r == self.layers@[slot.as_u32() as int],
    {
        self.layers[slot.as_u32() as usize]
    }

    /// Selects procedural surface semantics independently from texture layers.
    pub fn set_pattern(&mut self, slot: MaterialSlot, pattern: SurfacePattern)
        ensures
            final(self).layers == old(self).layers,
            final(self).patterns@ == old(self).patterns@.update(slot.as_u32() as int, pattern),
    {
        self.patterns[slot.as_u32() as usize] = pattern;
    }

    /// Returns the selected procedural treatment for a logical material slot.
    pub fn pattern(self, slot: MaterialSlot) -> (r: SurfacePattern)
        ensures
            r == self.patterns@[slot.as_u32() as int],
    {
        self.patterns[slot.as_u32() as usize]
    }

    /// The layers of all slots.
    pub open spec fn spec_layers(self) -> [u32; 16] {
        self.layers
    }

    /// The layers of all slots.
    #[verifier::when_used_as_spec(spec_layers)]
    pub fn layers(self) -> (r: [u32; 16])
        ensures
            r == self.spec_layers(),
    {
        self.layers
    }

    /// The treatments of all slots.
    pub open spec fn spec_patterns(self) -> [SurfacePattern; 16] {
        self.patterns
    }

    /// The treatments of all slots.
    #[verifier::when_used_as_spec(spec_patterns)]
    pub fn patterns(self) -> (r: [SurfacePattern; 16])
        ensures
            r == self.spec_patterns(),
    {
        self.patterns
    }

    /// Every slot has a layer that exists and a treatment that the renderer knows.
    pub open spec fn spec_is_valid(self) -> bool {
        &&& forall|i: int| 0 <= i < 16 ==> #[trigger] self.layers@[i] < MAX_TEXTURE_LAYERS
        &&& forall|i: int| 0 <= i < 16 ==> (#[trigger] self.patterns@[i]).is_known()
    }

    /// Every slot has a layer that exists and a treatment that the renderer knows.
    #[verifier::when_used_as_spec(spec_is_valid)]
    pub fn is_valid(self) -> (r: bool)
        ensures
            r == self.spec_is_valid(),
    {
        let mut i: usize = 0;
        while i < 16
            invariant
                i <= 16,
                forall|j: int| 0 <= j < i ==> #[trigger] self.layers@[j] < MAX_TEXTURE_LAYERS,
                forall|j: int| 0 <= j < i ==> (#[trigger] self.patterns@[j]).is_known(),
            decreases 16 - i,
        {
            if self.layers[i] >= MAX_TEXTURE_LAYERS || !self.patterns[i].is_known() {
                return false;
            }
            i = i + 1;
        }
        true
    }
}

impl Default for MaterialSelection {
    fn default() -> (r: MaterialSelection)
        ensures
            r == MaterialSelection::standard(),
    {
        MaterialSelection::standard()
    }
}

/// The numbers of the slots are all different, and every one of them counts a place in
/// a selection.
pub proof fn slots_have_their_own_places(a: MaterialSlot, b: MaterialSlot)
    ensures
        a.as_u32() < MATERIAL_SLOT_COUNT,
        a.as_u32() == b.as_u32() ==> a == b,
{
}

/// The standard selection is valid and stays so whatever layers that exist and
/// treatments that are known are put into it.
pub proof fn selections_stay_valid(
    before: MaterialSelection,
    slot: MaterialSlot,
    layer: u32,
    pattern: SurfacePattern,
    after: MaterialSelection,
)
    requires
        before.is_valid(),
        layer < MAX_TEXTURE_LAYERS,
        pattern.is_known(),
        after.layers@ == before.layers@.update(slot.as_u32() as int, layer),
        after.patterns@ == before.patterns@.update(slot.as_u32() as int, pattern),
    ensures
        MaterialSelection::standard().is_valid(),
        after.is_valid(),
{
    slots_have_their_own_places(slot, slot);
}

} // verus!
