//! Scenes populated without sampling: a building with the surroundings of a domain.

use crate::render_error::RenderError;
use crate::scene::{
    BackgroundBuilding, BackgroundBuildingKind, EnvironmentDomain, FacadeDescription,
    RenderEnvironment, SceneDescription, SceneLight, SceneModel, SceneOccluder, SceneOccluderKind,
    SignDescription, SignMount, SignStyle, SiteInfrastructure, SiteModel, SiteRoadKind, TimeOfDay,
    TreeInstance, TreeKind, UtilityLineDescription, UtilityPoleDescription,
};
use crate::single::Single;
use crate::surface::{MaterialSelection, SurfacePattern};
use vstd::prelude::*;

verus! {

/// Parking bays in front of a building of a width.
pub open spec fn spec_bays_for(footprint_width_m: Single) -> u32 {
    footprint_width_m.over(Single::ratio(255, 100)).round().clamp(
        Single::ratio(2, 1),
        Single::ratio(16, 1),
    ).to_u32()
}

/// Parking bays in front of a building of a width.
#[verifier::when_used_as_spec(spec_bays_for)]
pub fn bays_for(footprint_width_m: Single) -> (r: u32)
    ensures
        r == spec_bays_for(footprint_width_m),
{
    footprint_width_m.over(Single::ratio(255, 100)).round().clamp(
        Single::ratio(2, 1),
        Single::ratio(16, 1),
    ).to_u32()
}

/// Lane width of the road beside ground of a half extent.
pub open spec fn spec_lane_for(ground_half_extent_m: Single) -> Single {
    ground_half_extent_m.times(Single::ratio(14, 100)).max(Single::ratio(3, 1))
}

/// Lane width of the road beside ground of a half extent.
#[verifier::when_used_as_spec(spec_lane_for)]
pub fn lane_for(ground_half_extent_m: Single) -> (r: Single)
    ensures
        r == spec_lane_for(ground_half_extent_m),
{
    ground_half_extent_m.times(Single::ratio(14, 100)).max(Single::ratio(3, 1))
}

/// Parking row and road of a building, without poles.
pub open spec fn site_for(
    footprint_width_m: Single,
    footprint_depth_m: Single,
    ground_half_extent_m: Single,
) -> SiteModel {
    SiteModel {
        parking_bays: bays_for(footprint_width_m),
        parking_center: parking_center_for(footprint_depth_m),
        parking_bay_size_m: bay_size(),
        parking_yaw_radians: Single::zero(),
        road_lanes: 2,
        road_kind: SiteRoadKind::UrbanArterial,
        lane_width_m: lane_for(ground_half_extent_m),
        road_center_z_m: road_center_for(ground_half_extent_m),
        raised_curb: true,
        utility_poles: Seq::empty(),
        utility_lines: Seq::empty(),
    }
}

/// Centre of the parking row in front of a building of a depth.
pub open spec fn spec_parking_center_for(footprint_depth_m: Single) -> [Single; 3] {
    [Single::zero(), Single::zero(), footprint_depth_m.negated().times(Single::ratio(82, 100))]
}

/// Centre of the parking row in front of a building of a depth.
#[verifier::when_used_as_spec(spec_parking_center_for)]
pub fn parking_center_for(footprint_depth_m: Single) -> (r: [Single; 3])
    ensures
        r == spec_parking_center_for(footprint_depth_m),
{
    [Single::zero(), Single::zero(), footprint_depth_m.negated().times(Single::ratio(82, 100))]
}

/// Width and length of a parking bay.
pub open spec fn spec_bay_size() -> [Single; 2] {
    [Single::ratio(255, 100), Single::ratio(47, 10)]
}

/// Width and length of a parking bay.
#[verifier::when_used_as_spec(spec_bay_size)]
pub fn bay_size() -> (r: [Single; 2])
    ensures
        r == spec_bay_size(),
{
    [Single::ratio(255, 100), Single::ratio(47, 10)]
}

/// Centre line of the road beside ground of a half extent.
pub open spec fn spec_road_center_for(ground_half_extent_m: Single) -> Single {
    ground_half_extent_m.negated().times(Single::ratio(78, 100))
}

/// Centre line of the road beside ground of a half extent.
#[verifier::when_used_as_spec(spec_road_center_for)]
pub fn road_center_for(ground_half_extent_m: Single) -> (r: Single)
    ensures
        r == spec_road_center_for(ground_half_extent_m),
{
    ground_half_extent_m.negated().times(Single::ratio(78, 100))
}

impl SiteInfrastructure {
    /// Parking row and road of a building, without poles.
    pub fn for_scene(
        footprint_width_m: Single,
        footprint_depth_m: Single,
        ground_half_extent_m: Single,
    ) -> (r: SiteInfrastructure)
        ensures
            r@ == site_for(footprint_width_m, footprint_depth_m, ground_half_extent_m),
    {
        let r = SiteInfrastructure {
            parking_bays: bays_for(footprint_width_m),
            parking_center: parking_center_for(footprint_depth_m),
            parking_bay_size_m: bay_size(),
            parking_yaw_radians: Single::zero(),
            road_lanes: 2,
            road_kind: SiteRoadKind::UrbanArterial,
            lane_width_m: lane_for(ground_half_extent_m),
            road_center_z_m: road_center_for(ground_half_extent_m),
            raised_curb: true,
            utility_poles: Vec::new(),
            utility_lines: Vec::new(),
        };
        assert(r@.utility_poles =~= Seq::empty());
        assert(r@.utility_lines =~= Seq::empty());
        r
    }
}

/// Cables from every pole to the next one.
pub open spec fn adjacent_lines(
    poles: Seq<UtilityPoleDescription>,
    sag_m: Single,
) -> Seq<UtilityLineDescription> {
    Seq::new(
        if poles.len() == 0 { 0 } else { (poles.len() - 1) as nat },
        |i: int|
            UtilityLineDescription {
                start: poles[i].cable_point(),
                end: poles[i + 1].cable_point(),
                sag_m,
            },
    )
}

/// Strings cables from every pole to the next one.
pub fn adjacent_utility_lines(
    poles: &Vec<UtilityPoleDescription>,
    sag_m: Single,
) -> (r: Vec<UtilityLineDescription>)
    ensures
        r@ == adjacent_lines(poles@, sag_m),
{
    let mut r: Vec<UtilityLineDescription> = Vec::new();
    let mut i: usize = 1;
    while i < poles.len()
        invariant
            1 <= i,
            i <= poles@.len() || i == 1,
            r@.len() == i - 1,
            forall|j: int| 0 <= j < i - 1 ==> #[trigger] r@[j] == adjacent_lines(poles@, sag_m)[j],
        decreases poles@.len() - i,
    {
        r.push(
            UtilityLineDescription {
                start: poles[i - 1].cable_point(),
                end: poles[i].cable_point(),
                sag_m,
            },
        );
        i = i + 1;
    }
    assert(r@ =~= adjacent_lines(poles@, sag_m));
    r
}

/// A lamp or cable pole.
pub open spec fn spec_utility_pole(
    position: [Single; 3],
    height_m: Single,
    has_light: bool,
) -> UtilityPoleDescription {
    UtilityPoleDescription { position, height_m, has_light }
}

/// A lamp or cable pole.
#[verifier::when_used_as_spec(spec_utility_pole)]
pub fn utility_pole(
    position: [Single; 3],
    height_m: Single,
    has_light: bool,
) -> (r: UtilityPoleDescription)
    ensures
        r == spec_utility_pole(position, height_m, has_light),
{
    UtilityPoleDescription { position, height_m, has_light }
}

/// A neighbour in the plain finish; the tall ones are mixed-use.
pub open spec fn spec_background(
    center: [Single; 3],
    size: [Single; 3],
    yaw_radians: Single,
) -> BackgroundBuilding {
    BackgroundBuilding {
        center,
        size,
        yaw_radians,
        kind: if is_tall(size[1]) {
            BackgroundBuildingKind::MidriseMixedUse
        } else {
            BackgroundBuildingKind::LowCommercial
        },
        base_color_srgb: [Single::ratio(72, 100), Single::ratio(72, 100), Single::ratio(7, 10)],
        weathering: Single::ratio(25, 100),
        roughness: Single::ratio(78, 100),
        surface_pattern: SurfacePattern::background_windows(),
    }
}

/// A neighbour in the plain finish; the tall ones are mixed-use.
#[verifier::when_used_as_spec(spec_background)]
pub fn background(
    center: [Single; 3],
    size: [Single; 3],
    yaw_radians: Single,
) -> (r: BackgroundBuilding)
    ensures
        r == spec_background(center, size, yaw_radians),
{
    BackgroundBuilding {
        center,
        size,
        yaw_radians,
        kind: if is_tall(size[1]) {
            BackgroundBuildingKind::MidriseMixedUse
        } else {
            BackgroundBuildingKind::LowCommercial
        },
        base_color_srgb: [Single::ratio(72, 100), Single::ratio(72, 100), Single::ratio(7, 10)],
        weathering: Single::ratio(25, 100),
        roughness: Single::ratio(78, 100),
        surface_pattern: SurfacePattern::background_windows(),
    }
}

/// Whether a height in metres makes a building tall.
pub open spec fn spec_is_tall(height_m: Single) -> bool {
    Single::ratio(9, 1).less(height_m)
}

/// Whether a height in metres makes a building tall.
#[verifier::when_used_as_spec(spec_is_tall)]
pub fn is_tall(height_m: Single) -> (r: bool)
    ensures
        r == spec_is_tall(height_m),
{
    Single::ratio(9, 1).less(height_m)
}

/// A broad tree.
pub open spec fn spec_tree(
    position: [Single; 3],
    height_m: Single,
    crown_radius_m: Single,
) -> TreeInstance {
    TreeInstance {
        position,
        height_m,
        crown_radius_m,
        kind: TreeKind::Deciduous,
        yaw_radians: Single::zero(),
        seasonal_variation: Single::zero(),
    }
}

/// A broad tree.
#[verifier::when_used_as_spec(spec_tree)]
pub fn tree(position: [Single; 3], height_m: Single, crown_radius_m: Single) -> (r: TreeInstance)
    ensures
        r == spec_tree(position, height_m, crown_radius_m),
{
    TreeInstance {
        position,
        height_m,
        crown_radius_m,
        kind: TreeKind::Deciduous,
        yaw_radians: Single::zero(),
        seasonal_variation: Single::zero(),
    }
}

/// An object whose size is left to its family.
pub open spec fn spec_occluder(
    kind: SceneOccluderKind,
    position: [Single; 3],
    yaw_radians: Single,
    scale: Single,
) -> SceneOccluder {
    SceneOccluder {
        kind,
        position,
        yaw_radians,
        scale,
        nominal_size_m: [Single::zero(), Single::zero(), Single::zero()],
    }
}

/// An object whose size is left to its family.
#[verifier::when_used_as_spec(spec_occluder)]
pub fn occluder(
    kind: SceneOccluderKind,
    position: [Single; 3],
    yaw_radians: Single,
    scale: Single,
) -> (r: SceneOccluder)
    ensures
        r == spec_occluder(kind, position, yaw_radians, scale),
{
    SceneOccluder {
        kind,
        position,
        yaw_radians,
        scale,
        nominal_size_m: [Single::zero(), Single::zero(), Single::zero()],
    }
}

/// Number of poles around a building in a domain.
pub open spec fn spec_context_pole_count(domain: EnvironmentDomain) -> u32 {
    match domain {
        EnvironmentDomain::City => 2,
        EnvironmentDomain::Urban => 3,
        EnvironmentDomain::Remote => 2,
    }
}

/// Number of poles around a building in a domain.
#[verifier::when_used_as_spec(spec_context_pole_count)]
pub fn context_pole_count(domain: EnvironmentDomain) -> (r: u32)
    ensures
        r == spec_context_pole_count(domain),
{
    match domain {
        EnvironmentDomain::City => 2,
        EnvironmentDomain::Urban => 3,
        EnvironmentDomain::Remote => 2,
    }
}

/// One of the poles around a building in a domain.
pub open spec fn spec_context_pole_at(
    domain: EnvironmentDomain,
    g: Single,
    i: u32,
) -> UtilityPoleDescription {
    match domain {
        EnvironmentDomain::City => {
            if i == 0 {
                utility_pole(
                    [
                        Single::ratio((-48) as i32, 100).times(g),
                        Single::zero(),
                        Single::ratio((-62) as i32, 100).times(g),
                    ],
                    Single::ratio(62, 10),
                    true,
                )
            } else {
                utility_pole(
                    [
                        Single::ratio(42, 100).times(g),
                        Single::zero(),
                        Single::ratio((-62) as i32, 100).times(g),
                    ],
                    Single::ratio(62, 10),
                    true,
                )
            }
        },
        EnvironmentDomain::Urban => {
            if i == 0 {
                utility_pole(
                    [
                        Single::ratio((-7) as i32, 10).times(g),
                        Single::zero(),
                        Single::ratio((-62) as i32, 100).times(g),
                    ],
                    Single::ratio(75, 10),
                    false,
                )
            } else if i == 1 {
                utility_pole(
                    [Single::zero(), Single::zero(), Single::ratio((-62) as i32, 100).times(g)],
                    Single::ratio(75, 10),
                    true,
                )
            } else {
                utility_pole(
                    [
                        Single::ratio(7, 10).times(g),
                        Single::zero(),
                        Single::ratio((-62) as i32, 100).times(g),
                    ],
                    Single::ratio(75, 10),
                    false,
                )
            }
        },
        EnvironmentDomain::Remote => {
            if i == 0 {
                utility_pole(
                    [
                        Single::ratio((-62) as i32, 100).times(g),
                        Single::zero(),
                        Single::ratio((-68) as i32, 100).times(g),
                    ],
                    Single::ratio(78, 10),
                    false,
                )
            } else {
                utility_pole(
                    [
                        Single::ratio(62, 100).times(g),
                        Single::zero(),
                        Single::ratio((-68) as i32, 100).times(g),
                    ],
                    Single::ratio(78, 10),
                    false,
                )
            }
        },
    }
}

/// One of the poles around a building in a domain.
#[verifier::when_used_as_spec(spec_context_pole_at)]
pub fn context_pole_at(
    domain: EnvironmentDomain,
    g: Single,
    i: u32,
) -> (r: UtilityPoleDescription)
    ensures
        r == spec_context_pole_at(domain, g, i),
{
    match domain {
        EnvironmentDomain::City => {
            if i == 0 {
                utility_pole(
                    [
                        Single::ratio((-48) as i32, 100).times(g),
                        Single::zero(),
                        Single::ratio((-62) as i32, 100).times(g),
                    ],
                    Single::ratio(62, 10),
                    true,
                )
            } else {
                utility_pole(
                    [
                        Single::ratio(42, 100).times(g),
                        Single::zero(),
                        Single::ratio((-62) as i32, 100).times(g),
                    ],
                    Single::ratio(62, 10),
                    true,
                )
            }
        },
        EnvironmentDomain::Urban => {
            if i == 0 {
                utility_pole(
                    [
                        Single::ratio((-7) as i32, 10).times(g),
                        Single::zero(),
                        Single::ratio((-62) as i32, 100).times(g),
                    ],
                    Single::ratio(75, 10),
                    false,
                )
            } else if i == 1 {
                utility_pole(
                    [Single::zero(), Single::zero(), Single::ratio((-62) as i32, 100).times(g)],
                    Single::ratio(75, 10),
                    true,
                )
            } else {
                utility_pole(
                    [
                        Single::ratio(7, 10).times(g),
                        Single::zero(),
                        Single::ratio((-62) as i32, 100).times(g),
                    ],
                    Single::ratio(75, 10),
                    false,
                )
            }
        },
        EnvironmentDomain::Remote => {
            if i == 0 {
                utility_pole(
                    [
                        Single::ratio((-62) as i32, 100).times(g),
                        Single::zero(),
                        Single::ratio((-68) as i32, 100).times(g),
                    ],
                    Single::ratio(78, 10),
                    false,
                )
            } else {
                utility_pole(
                    [
                        Single::ratio(62, 100).times(g),
                        Single::zero(),
                        Single::ratio((-68) as i32, 100).times(g),
                    ],
                    Single::ratio(78, 10),
                    false,
                )
            }
        },
    }
}

/// The poles around a building in a domain.
pub open spec fn context_poles(
    domain: EnvironmentDomain,
    g: Single,
) -> Seq<UtilityPoleDescription> {
    Seq::new(context_pole_count(domain) as nat, |i: int| context_pole_at(domain, g, i as u32))
}

fn list_context_poles(domain: EnvironmentDomain, g: Single) -> (r: Vec<UtilityPoleDescription>)
    ensures
        r@ == context_poles(domain, g),
{
    let mut r: Vec<UtilityPoleDescription> = Vec::new();
    let mut i: u32 = 0;
    while i < context_pole_count(domain)
        invariant
            i <= context_pole_count(domain),
            r@.len() == i,
            forall|j: int| 0 <= j < i ==> #[trigger] r@[j] == context_pole_at(domain, g, j as u32),
        decreases context_pole_count(domain) - i,
    {
        r.push(context_pole_at(domain, g, i));
        i = i + 1;
    }
    r
}

/// Number of neighbours around a building in a domain.
pub open spec fn spec_context_background_count(domain: EnvironmentDomain) -> u32 {
    match domain {
        EnvironmentDomain::City => 6,
        EnvironmentDomain::Urban => 3,
        EnvironmentDomain::Remote => 0,
    }
}

/// Number of neighbours around a building in a domain.
#[verifier::when_used_as_spec(spec_context_background_count)]
pub fn context_background_count(domain: EnvironmentDomain) -> (r: u32)
    ensures
        r == spec_context_background_count(domain),
{
    match domain {
        EnvironmentDomain::City => 6,
        EnvironmentDomain::Urban => 3,
        EnvironmentDomain::Remote => 0,
    }
}

/// One of the neighbours around a building in a domain.
pub open spec fn spec_context_background_at(
    domain: EnvironmentDomain,
    g: Single,
    i: u32,
) -> BackgroundBuilding {
    match domain {
        EnvironmentDomain::City => {
            if i == 0 {
                background(
                    [
                        Single::ratio((-68) as i32, 100).times(g),
                        Single::zero(),
                        Single::ratio(62, 100).times(g),
                    ],
                    [Single::ratio(12, 1), Single::ratio(16, 1), Single::ratio(9, 1)],
                    Single::ratio(8, 100),
                )
            } else if i == 1 {
                background(
                    [
                        Single::ratio(62, 100).times(g),
                        Single::zero(),
                        Single::ratio(66, 100).times(g),
                    ],
                    [Single::ratio(15, 1), Single::ratio(22, 1), Single::ratio(11, 1)],
                    Single::ratio((-12) as i32, 100),
                )
            } else if i == 2 {
                background(
                    [
                        Single::ratio((-72) as i32, 100).times(g),
                        Single::zero(),
                        Single::ratio((-28) as i32, 100).times(g),
                    ],
                    [Single::ratio(10, 1), Single::ratio(11, 1), Single::ratio(8, 1)],
                    Single::ratio(4, 100),
                )
            } else if i == 3 {
                background(
                    [
                        Single::ratio(72, 100).times(g),
                        Single::zero(),
                        Single::ratio((-18) as i32, 100).times(g),
                    ],
                    [Single::ratio(13, 1), Single::ratio(14, 1), Single::ratio(10, 1)],
                    Single::ratio((-6) as i32, 100),
                )
            } else if i == 4 {
                background(
                    [
                        Single::ratio((-26) as i32, 100).times(g),
                        Single::zero(),
                        Single::ratio(78, 100).times(g),
                    ],
                    [Single::ratio(14, 1), Single::ratio(9, 1), Single::ratio(7, 1)],
                    Single::zero(),
                )
            } else {
                background(
                    [
                        Single::ratio(27, 100).times(g),
                        Single::zero(),
                        Single::ratio(82, 100).times(g),
                    ],
                    [Single::ratio(11, 1), Single::ratio(12, 1), Single::ratio(8, 1)],
                    Single::ratio(3, 100),
                )
            }
        },
        EnvironmentDomain::Urban | EnvironmentDomain::Remote => {
            if i == 0 {
                background(
                    [
                        Single::ratio((-62) as i32, 100).times(g),
                        Single::zero(),
                        Single::ratio(65, 100).times(g),
                    ],
                    [Single::ratio(13, 1), Single::ratio(55, 10), Single::ratio(8, 1)],
                    Single::ratio(8, 100),
                )
            } else if i == 1 {
                background(
                    [
                        Single::ratio(57, 100).times(g),
                        Single::zero(),
                        Single::ratio(7, 10).times(g),
                    ],
                    [Single::ratio(17, 1), Single::ratio(65, 10), Single::ratio(10, 1)],
                    Single::ratio((-8) as i32, 100),
                )
            } else {
                background(
                    [
                        Single::ratio((-72) as i32, 100).times(g),
                        Single::zero(),
                        Single::ratio((-18) as i32, 100).times(g),
                    ],
                    [Single::ratio(10, 1), Single::ratio(45, 10), Single::ratio(8, 1)],
                    Single::ratio(3, 100),
                )
            }
        },
    }
}

/// One of the neighbours around a building in a domain.
#[verifier::when_used_as_spec(spec_context_background_at)]
pub fn context_background_at(
    domain: EnvironmentDomain,
    g: Single,
    i: u32,
) -> (r: BackgroundBuilding)
    ensures
        r == spec_context_background_at(domain, g, i),
{
    match domain {
        EnvironmentDomain::City => {
            if i == 0 {
                background(
                    [
                        Single::ratio((-68) as i32, 100).times(g),
                        Single::zero(),
                        Single::ratio(62, 100).times(g),
                    ],
                    [Single::ratio(12, 1), Single::ratio(16, 1), Single::ratio(9, 1)],
                    Single::ratio(8, 100),
                )
            } else if i == 1 {
                background(
                    [
                        Single::ratio(62, 100).times(g),
                        Single::zero(),
                        Single::ratio(66, 100).times(g),
                    ],
                    [Single::ratio(15, 1), Single::ratio(22, 1), Single::ratio(11, 1)],
                    Single::ratio((-12) as i32, 100),
                )
            } else if i == 2 {
                background(
                    [
                        Single::ratio((-72) as i32, 100).times(g),
                        Single::zero(),
                        Single::ratio((-28) as i32, 100).times(g),
                    ],
                    [Single::ratio(10, 1), Single::ratio(11, 1), Single::ratio(8, 1)],
                    Single::ratio(4, 100),
                )
            } else if i == 3 {
                background(
                    [
                        Single::ratio(72, 100).times(g),
                        Single::zero(),
                        Single::ratio((-18) as i32, 100).times(g),
                    ],
                    [Single::ratio(13, 1), Single::ratio(14, 1), Single::ratio(10, 1)],
                    Single::ratio((-6) as i32, 100),
                )
            } else if i == 4 {
                background(
                    [
                        Single::ratio((-26) as i32, 100).times(g),
                        Single::zero(),
                        Single::ratio(78, 100).times(g),
                    ],
                    [Single::ratio(14, 1), Single::ratio(9, 1), Single::ratio(7, 1)],
                    Single::zero(),
                )
            } else {
                background(
                    [
                        Single::ratio(27, 100).times(g),
                        Single::zero(),
                        Single::ratio(82, 100).times(g),
                    ],
                    [Single::ratio(11, 1), Single::ratio(12, 1), Single::ratio(8, 1)],
                    Single::ratio(3, 100),
                )
            }
        },
        EnvironmentDomain::Urban | EnvironmentDomain::Remote => {
            if i == 0 {
                background(
                    [
                        Single::ratio((-62) as i32, 100).times(g),
                        Single::zero(),
                        Single::ratio(65, 100).times(g),
                    ],
                    [Single::ratio(13, 1), Single::ratio(55, 10), Single::ratio(8, 1)],
                    Single::ratio(8, 100),
                )
            } else if i == 1 {
                background(
                    [
                        Single::ratio(57, 100).times(g),
                        Single::zero(),
                        Single::ratio(7, 10).times(g),
                    ],
                    [Single::ratio(17, 1), Single::ratio(65, 10), Single::ratio(10, 1)],
                    Single::ratio((-8) as i32, 100),
                )
            } else {
                background(
                    [
                        Single::ratio((-72) as i32, 100).times(g),
                        Single::zero(),
                        Single::ratio((-18) as i32, 100).times(g),
                    ],
                    [Single::ratio(10, 1), Single::ratio(45, 10), Single::ratio(8, 1)],
                    Single::ratio(3, 100),
                )
            }
        },
    }
}

/// The neighbours around a building in a domain.
pub open spec fn context_backgrounds(
    domain: EnvironmentDomain,
    g: Single,
) -> Seq<BackgroundBuilding> {
    Seq::new(
        context_background_count(domain) as nat,
        |i: int| context_background_at(domain, g, i as u32),
    )
}

fn list_context_backgrounds(domain: EnvironmentDomain, g: Single) -> (r: Vec<BackgroundBuilding>)
    ensures
        r@ == context_backgrounds(domain, g),
{
    let mut r: Vec<BackgroundBuilding> = Vec::new();
    let mut i: u32 = 0;
    while i < context_background_count(domain)
        invariant
            i <= context_background_count(domain),
            r@.len() == i,
            forall|j: int| 0 <= j < i ==> #[trigger] r@[j] == context_background_at(
                domain,
                g,
                j as u32,
            ),
        decreases context_background_count(domain) - i,
    {
        r.push(context_background_at(domain, g, i));
        i = i + 1;
    }
    r
}

/// Number of trees around a building in a domain.
pub open spec fn spec_context_tree_count(domain: EnvironmentDomain) -> u32 {
    match domain {
        EnvironmentDomain::City => 2,
        EnvironmentDomain::Urban => 4,
        EnvironmentDomain::Remote => 6,
    }
}

/// Number of trees around a building in a domain.
#[verifier::when_used_as_spec(spec_context_tree_count)]
pub fn context_tree_count(domain: EnvironmentDomain) -> (r: u32)
    ensures
        r == spec_context_tree_count(domain),
{
    match domain {
        EnvironmentDomain::City => 2,
        EnvironmentDomain::Urban => 4,
        EnvironmentDomain::Remote => 6,
    }
}

/// One of the trees around a building in a domain.
pub open spec fn spec_context_tree_at(
    domain: EnvironmentDomain,
    g: Single,
    i: u32,
) -> TreeInstance {
    match domain {
        EnvironmentDomain::City => {
            if i == 0 {
                tree(
                    [
                        Single::ratio((-45) as i32, 100).times(g),
                        Single::zero(),
                        Single::ratio((-5) as i32, 10).times(g),
                    ],
                    Single::ratio(7, 1),
                    Single::ratio(21, 10),
                )
            } else {
                tree(
                    [
                        Single::ratio(5, 10).times(g),
                        Single::zero(),
                        Single::ratio(36, 100).times(g),
                    ],
                    Single::ratio(6, 1),
                    Single::ratio(18, 10),
                )
            }
        },
        EnvironmentDomain::Urban => {
            if i == 0 {
                tree(
                    [
                        Single::ratio((-48) as i32, 100).times(g),
                        Single::zero(),
                        Single::ratio((-46) as i32, 100).times(g),
                    ],
                    Single::ratio(8, 1),
                    Single::ratio(25, 10),
                )
            } else if i == 1 {
                tree(
                    [
                        Single::ratio(48, 100).times(g),
                        Single::zero(),
                        Single::ratio(35, 100).times(g),
                    ],
                    Single::ratio(65, 10),
                    Single::ratio(2, 1),
                )
            } else if i == 2 {
                tree(
                    [
                        Single::ratio((-36) as i32, 100).times(g),
                        Single::zero(),
                        Single::ratio(52, 100).times(g),
                    ],
                    Single::ratio(72, 10),
                    Single::ratio(22, 10),
                )
            } else {
                tree(
                    [
                        Single::ratio(62, 100).times(g),
                        Single::zero(),
                        Single::ratio((-2) as i32, 10).times(g),
                    ],
                    Single::ratio(58, 10),
                    Single::ratio(18, 10),
                )
            }
        },
        EnvironmentDomain::Remote => {
            if i == 0 {
                tree(
                    [
                        Single::ratio((-36) as i32, 100).times(g),
                        Single::zero(),
                        Single::ratio((-42) as i32, 100).times(g),
                    ],
                    Single::ratio(10, 1),
                    Single::ratio(32, 10),
                )
            } else if i == 1 {
                tree(
                    [
                        Single::ratio(42, 100).times(g),
                        Single::zero(),
                        Single::ratio((-35) as i32, 100).times(g),
                    ],
                    Single::ratio(85, 10),
                    Single::ratio(28, 10),
                )
            } else if i == 2 {
                tree(
                    [
                        Single::ratio((-55) as i32, 100).times(g),
                        Single::zero(),
                        Single::ratio(14, 100).times(g),
                    ],
                    Single::ratio(11, 1),
                    Single::ratio(35, 10),
                )
            } else if i == 3 {
                tree(
                    [
                        Single::ratio(58, 100).times(g),
                        Single::zero(),
                        Single::ratio(24, 100).times(g),
                    ],
                    Single::ratio(92, 10),
                    Single::ratio(3, 1),
                )
            } else if i == 4 {
                tree(
                    [
                        Single::ratio((-22) as i32, 100).times(g),
                        Single::zero(),
                        Single::ratio(62, 100).times(g),
                    ],
                    Single::ratio(8, 1),
                    Single::ratio(25, 10),
                )
            } else {
                tree(
                    [
                        Single::ratio(28, 100).times(g),
                        Single::zero(),
                        Single::ratio(7, 10).times(g),
                    ],
                    Single::ratio(95, 10),
                    Single::ratio(31, 10),
                )
            }
        },
    }
}

/// One of the trees around a building in a domain.
#[verifier::when_used_as_spec(spec_context_tree_at)]
pub fn context_tree_at(domain: EnvironmentDomain, g: Single, i: u32) -> (r: TreeInstance)
    ensures
        r == spec_context_tree_at(domain, g, i),
{
    match domain {
        EnvironmentDomain::City => {
            if i == 0 {
                tree(
                    [
                        Single::ratio((-45) as i32, 100).times(g),
                        Single::zero(),
                        Single::ratio((-5) as i32, 10).times(g),
                    ],
                    Single::ratio(7, 1),
                    Single::ratio(21, 10),
                )
            } else {
                tree(
                    [
                        Single::ratio(5, 10).times(g),
                        Single::zero(),
                        Single::ratio(36, 100).times(g),
                    ],
                    Single::ratio(6, 1),
                    Single::ratio(18, 10),
                )
            }
        },
        EnvironmentDomain::Urban => {
            if i == 0 {
                tree(
                    [
                        Single::ratio((-48) as i32, 100).times(g),
                        Single::zero(),
                        Single::ratio((-46) as i32, 100).times(g),
                    ],
                    Single::ratio(8, 1),
                    Single::ratio(25, 10),
                )
            } else if i == 1 {
                tree(
                    [
                        Single::ratio(48, 100).times(g),
                        Single::zero(),
                        Single::ratio(35, 100).times(g),
                    ],
                    Single::ratio(65, 10),
                    Single::ratio(2, 1),
                )
            } else if i == 2 {
                tree(
                    [
                        Single::ratio((-36) as i32, 100).times(g),
                        Single::zero(),
                        Single::ratio(52, 100).times(g),
                    ],
                    Single::ratio(72, 10),
                    Single::ratio(22, 10),
                )
            } else {
                tree(
                    [
                        Single::ratio(62, 100).times(g),
                        Single::zero(),
                        Single::ratio((-2) as i32, 10).times(g),
                    ],
                    Single::ratio(58, 10),
                    Single::ratio(18, 10),
                )
            }
        },
        EnvironmentDomain::Remote => {
            if i == 0 {
                tree(
                    [
                        Single::ratio((-36) as i32, 100).times(g),
                        Single::zero(),
                        Single::ratio((-42) as i32, 100).times(g),
                    ],
                    Single::ratio(10, 1),
                    Single::ratio(32, 10),
                )
            } else if i == 1 {
                tree(
                    [
                        Single::ratio(42, 100).times(g),
                        Single::zero(),
                        Single::ratio((-35) as i32, 100).times(g),
                    ],
                    Single::ratio(85, 10),
                    Single::ratio(28, 10),
                )
            } else if i == 2 {
                tree(
                    [
                        Single::ratio((-55) as i32, 100).times(g),
                        Single::zero(),
                        Single::ratio(14, 100).times(g),
                    ],
                    Single::ratio(11, 1),
                    Single::ratio(35, 10),
                )
            } else if i == 3 {
                tree(
                    [
                        Single::ratio(58, 100).times(g),
                        Single::zero(),
                        Single::ratio(24, 100).times(g),
                    ],
                    Single::ratio(92, 10),
                    Single::ratio(3, 1),
                )
            } else if i == 4 {
                tree(
                    [
                        Single::ratio((-22) as i32, 100).times(g),
                        Single::zero(),
                        Single::ratio(62, 100).times(g),
                    ],
                    Single::ratio(8, 1),
                    Single::ratio(25, 10),
                )
            } else {
                tree(
                    [
                        Single::ratio(28, 100).times(g),
                        Single::zero(),
                        Single::ratio(7, 10).times(g),
                    ],
                    Single::ratio(95, 10),
                    Single::ratio(31, 10),
                )
            }
        },
    }
}

/// The trees around a building in a domain.
pub open spec fn context_trees(domain: EnvironmentDomain, g: Single) -> Seq<TreeInstance> {
    Seq::new(context_tree_count(domain) as nat, |i: int| context_tree_at(domain, g, i as u32))
}

fn list_context_trees(domain: EnvironmentDomain, g: Single) -> (r: Vec<TreeInstance>)
    ensures
        r@ == context_trees(domain, g),
{
    let mut r: Vec<TreeInstance> = Vec::new();
    let mut i: u32 = 0;
    while i < context_tree_count(domain)
        invariant
            i <= context_tree_count(domain),
            r@.len() == i,
            forall|j: int| 0 <= j < i ==> #[trigger] r@[j] == context_tree_at(domain, g, j as u32),
        decreases context_tree_count(domain) - i,
    {
        r.push(context_tree_at(domain, g, i));
        i = i + 1;
    }
    r
}

/// One of the five objects around a building.
pub open spec fn spec_context_occluder(
    width: Single,
    depth: Single,
    h: Single,
    g: Single,
    i: u32,
) -> SceneOccluder {
    if i == 0 {
        occluder(
            SceneOccluderKind::Vehicle,
            [
                Single::ratio((-28) as i32, 100).times(g),
                Single::zero(),
                Single::ratio((-32) as i32, 100).times(g),
            ],
            Single::ratio(8, 100),
            Single::one(),
        )
    } else if i == 1 {
        occluder(
            SceneOccluderKind::PoleSign,
            [
                Single::ratio(38, 100).times(g),
                Single::zero(),
                Single::ratio((-46) as i32, 100).times(g),
            ],
            Single::zero(),
            Single::one(),
        )
    } else if i == 2 {
        occluder(
            SceneOccluderKind::Shrub,
            [
                Single::ratio((-28) as i32, 100).times(width),
                Single::zero(),
                Single::ratio((-55) as i32, 100).times(depth),
            ],
            Single::zero(),
            Single::one(),
        )
    } else if i == 3 {
        occluder(
            SceneOccluderKind::Shrub,
            [
                Single::ratio(28, 100).times(width),
                Single::zero(),
                Single::ratio((-55) as i32, 100).times(depth),
            ],
            Single::zero(),
            Single::ratio(115, 100),
        )
    } else {
        occluder(
            SceneOccluderKind::Hvac,
            [
                Single::ratio(18, 100).times(width),
                h.plus(Single::ratio(6, 10)),
                Single::ratio(5, 100),
            ],
            Single::ratio(1, 10),
            Single::ratio(8, 10),
        )
    }
}

/// One of the five objects around a building.
#[verifier::when_used_as_spec(spec_context_occluder)]
pub fn context_occluder(
    width: Single,
    depth: Single,
    h: Single,
    g: Single,
    i: u32,
) -> (r: SceneOccluder)
    ensures
        r == spec_context_occluder(width, depth, h, g, i),
{
    if i == 0 {
        occluder(
            SceneOccluderKind::Vehicle,
            [
                Single::ratio((-28) as i32, 100).times(g),
                Single::zero(),
                Single::ratio((-32) as i32, 100).times(g),
            ],
            Single::ratio(8, 100),
            Single::one(),
        )
    } else if i == 1 {
        occluder(
            SceneOccluderKind::PoleSign,
            [
                Single::ratio(38, 100).times(g),
                Single::zero(),
                Single::ratio((-46) as i32, 100).times(g),
            ],
            Single::zero(),
            Single::one(),
        )
    } else if i == 2 {
        occluder(
            SceneOccluderKind::Shrub,
            [
                Single::ratio((-28) as i32, 100).times(width),
                Single::zero(),
                Single::ratio((-55) as i32, 100).times(depth),
            ],
            Single::zero(),
            Single::one(),
        )
    } else if i == 3 {
        occluder(
            SceneOccluderKind::Shrub,
            [
                Single::ratio(28, 100).times(width),
                Single::zero(),
                Single::ratio((-55) as i32, 100).times(depth),
            ],
            Single::zero(),
            Single::ratio(115, 100),
        )
    } else {
        occluder(
            SceneOccluderKind::Hvac,
            [
                Single::ratio(18, 100).times(width),
                h.plus(Single::ratio(6, 10)),
                Single::ratio(5, 100),
            ],
            Single::ratio(1, 10),
            Single::ratio(8, 10),
        )
    }
}

/// The five objects around a building.
pub open spec fn context_occluders(
    width: Single,
    depth: Single,
    h: Single,
    g: Single,
) -> Seq<SceneOccluder> {
    Seq::new(5, |i: int| context_occluder(width, depth, h, g, i as u32))
}

fn list_context_occluders(
    width: Single,
    depth: Single,
    h: Single,
    g: Single,
) -> (r: Vec<SceneOccluder>)
    ensures
        r@ == context_occluders(width, depth, h, g),
{
    let mut r: Vec<SceneOccluder> = Vec::new();
    let mut i: u32 = 0;
    while i < 5
        invariant
            i <= 5,
            r@.len() == i,
            forall|j: int|
                0 <= j < i ==> #[trigger] r@[j] == context_occluder(width, depth, h, g, j as u32),
        decreases 5 - i,
    {
        r.push(context_occluder(width, depth, h, g, i));
        i = i + 1;
    }
    r
}

/// Strength of a lit sign at a time of day.
pub open spec fn spec_sign_strength(time: TimeOfDay) -> Single {
    match time {
        TimeOfDay::Day => Single::zero(),
        TimeOfDay::Twilight => Single::ratio(6, 10),
        TimeOfDay::Night => Single::ratio(14, 10),
    }
}

/// Strength of a lit sign at a time of day.
#[verifier::when_used_as_spec(spec_sign_strength)]
pub fn sign_strength(time: TimeOfDay) -> (r: Single)
    ensures
        r == spec_sign_strength(time),
{
    match time {
        TimeOfDay::Day => Single::zero(),
        TimeOfDay::Twilight => Single::ratio(6, 10),
        TimeOfDay::Night => Single::ratio(14, 10),
    }
}

/// The sign above the front entrance of a building.
pub open spec fn spec_front_sign(
    width: Single,
    depth: Single,
    wall_height: Single,
    time: TimeOfDay,
) -> SignDescription {
    let sign_width = width.times(Single::ratio(24, 100)).clamp(
        Single::ratio(28, 10),
        Single::ratio(55, 10),
    );
    let sign_height = wall_height.times(Single::ratio(18, 100)).clamp(
        Single::ratio(55, 100),
        Single::one(),
    );
    SignDescription {
        style: SignStyle::PizzaHut,
        mount: SignMount::Facade,
        center: [
            Single::zero(),
            wall_height.minus(sign_height.times(Single::ratio(75, 100))),
            depth.negated().times(Single::ratio(5, 10)).minus(Single::ratio(55, 1000)),
        ],
        size: [sign_width, sign_height],
        yaw_radians: Single::zero(),
        emissive_strength: sign_strength(time),
        weathering: Single::ratio(15, 100),
    }
}

/// The sign above the front entrance of a building.
#[verifier::when_used_as_spec(spec_front_sign)]
pub fn front_sign(
    width: Single,
    depth: Single,
    wall_height: Single,
    time: TimeOfDay,
) -> (r: SignDescription)
    ensures
        r == spec_front_sign(width, depth, wall_height, time),
{
    let sign_width = width.times(Single::ratio(24, 100)).clamp(
        Single::ratio(28, 10),
        Single::ratio(55, 10),
    );
    let sign_height = wall_height.times(Single::ratio(18, 100)).clamp(
        Single::ratio(55, 100),
        Single::one(),
    );
    SignDescription {
        style: SignStyle::PizzaHut,
        mount: SignMount::Facade,
        center: [
            Single::zero(),
            wall_height.minus(sign_height.times(Single::ratio(75, 100))),
            depth.negated().times(Single::ratio(5, 10)).minus(Single::ratio(55, 1000)),
        ],
        size: [sign_width, sign_height],
        yaw_radians: Single::zero(),
        emissive_strength: sign_strength(time),
        weathering: Single::ratio(15, 100),
    }
}

/// The light above the front entrance.
pub open spec fn spec_entrance_light(depth: Single) -> SceneLight {
    SceneLight {
        position: [
            Single::zero(),
            Single::ratio(27, 10),
            depth.negated().times(Single::ratio(58, 100)),
        ],
        color: [Single::one(), Single::ratio(68, 100), Single::ratio(34, 100)],
        intensity: Single::ratio(3, 1),
        range_m: Single::ratio(8, 1),
    }
}

/// The light above the front entrance.
#[verifier::when_used_as_spec(spec_entrance_light)]
pub fn entrance_light(depth: Single) -> (r: SceneLight)
    ensures
        r == spec_entrance_light(depth),
{
    SceneLight {
        position: [
            Single::zero(),
            Single::ratio(27, 10),
            depth.negated().times(Single::ratio(58, 100)),
        ],
        color: [Single::one(), Single::ratio(68, 100), Single::ratio(34, 100)],
        intensity: Single::ratio(3, 1),
        range_m: Single::ratio(8, 1),
    }
}

/// The light over the parking row.
pub open spec fn spec_parking_light(g: Single) -> SceneLight {
    SceneLight {
        position: [
            Single::ratio(22, 100).times(g),
            Single::ratio(52, 10),
            Single::ratio((-55) as i32, 100).times(g),
        ],
        color: [Single::one(), Single::ratio(82, 100), Single::ratio(58, 100)],
        intensity: Single::ratio(5, 1),
        range_m: Single::ratio(13, 1),
    }
}

/// The light over the parking row.
#[verifier::when_used_as_spec(spec_parking_light)]
pub fn parking_light(g: Single) -> (r: SceneLight)
    ensures
        r == spec_parking_light(g),
{
    SceneLight {
        position: [
            Single::ratio(22, 100).times(g),
            Single::ratio(52, 10),
            Single::ratio((-55) as i32, 100).times(g),
        ],
        color: [Single::one(), Single::ratio(82, 100), Single::ratio(58, 100)],
        intensity: Single::ratio(5, 1),
        range_m: Single::ratio(13, 1),
    }
}

/// The site of a domain.
pub open spec fn context_site(
    width: Single,
    depth: Single,
    g: Single,
    domain: EnvironmentDomain,
) -> SiteModel {
    let base = site_for(width, depth, g);
    let poles = context_poles(domain, g);
    match domain {
        EnvironmentDomain::City => SiteModel {
            parking_bays: 4,
            road_lanes: 4,
            road_kind: SiteRoadKind::UrbanArterial,
            utility_poles: poles,
            ..base
        },
        EnvironmentDomain::Urban => SiteModel {
            parking_bays: 10,
            road_lanes: 4,
            road_kind: SiteRoadKind::UrbanArterial,
            utility_poles: poles,
            utility_lines: adjacent_lines(poles, Single::ratio(7, 10)),
            ..base
        },
        EnvironmentDomain::Remote => SiteModel {
            parking_bays: 5,
            road_lanes: 2,
            road_kind: SiteRoadKind::RuralRoad,
            raised_curb: false,
            utility_poles: poles,
            utility_lines: adjacent_lines(poles, Single::ratio(11, 10)),
            ..base
        },
    }
}

fn make_context_site(
    width: Single,
    depth: Single,
    g: Single,
    domain: EnvironmentDomain,
) -> (r: SiteInfrastructure)
    ensures
        r@ == context_site(width, depth, g, domain),
{
    let mut r = SiteInfrastructure::for_scene(width, depth, g);
    r.utility_poles = list_context_poles(domain, g);
    match domain {
        EnvironmentDomain::City => {
            r.parking_bays = 4;
            r.road_lanes = 4;
            r.road_kind = SiteRoadKind::UrbanArterial;
        },
        EnvironmentDomain::Urban => {
            r.parking_bays = 10;
            r.road_lanes = 4;
            r.road_kind = SiteRoadKind::UrbanArterial;
            r.utility_lines = adjacent_utility_lines(&r.utility_poles, Single::ratio(7, 10));
        },
        EnvironmentDomain::Remote => {
            r.parking_bays = 5;
            r.road_lanes = 2;
            r.road_kind = SiteRoadKind::RuralRoad;
            r.raised_curb = false;
            r.utility_lines = adjacent_utility_lines(&r.utility_poles, Single::ratio(11, 10));
        },
    }
    r
}

/// A scene with nothing around its building.
pub open spec fn bare_scene(
    width: Single,
    depth: Single,
    wall_height: Single,
    ground: Single,
    environment: RenderEnvironment,
) -> SceneModel {
    SceneModel {
        footprint_width_m: width,
        footprint_depth_m: depth,
        wall_height_m: wall_height,
        ground_half_extent_m: ground,
        facade: FacadeDescription::standard(),
        building_extensions: Seq::empty(),
        environment,
        materials: MaterialSelection::standard(),
        site: site_for(width, depth, ground),
        signs: Seq::empty(),
        background_buildings: Seq::empty(),
        trees: Seq::empty(),
        occluders: Seq::empty(),
        lights: Seq::empty(),
    }
}

/// A scene with the surroundings of its domain put in place of its own.
pub open spec fn populated(scene: SceneModel) -> SceneModel {
    let g = scene.ground_half_extent_m;
    let domain = scene.environment.domain;
    let time = scene.environment.time_of_day;
    SceneModel {
        site: context_site(scene.footprint_width_m, scene.footprint_depth_m, g, domain),
        background_buildings: context_backgrounds(domain, g),
        trees: context_trees(domain, g),
        occluders: context_occluders(
            scene.footprint_width_m,
            scene.footprint_depth_m,
            scene.wall_height_m,
            g,
        ),
        signs: seq![
            front_sign(
                scene.footprint_width_m,
                scene.footprint_depth_m,
                scene.wall_height_m,
                time,
            ),
        ],
        lights: if time != TimeOfDay::Day {
            seq![entrance_light(scene.footprint_depth_m)].push(parking_light(g))
        } else {
            scene.lights
        },
        ..scene
    }
}

impl SceneDescription {
    /// Creates an empty-context scene description ready for explicit population.
    pub fn new(
        footprint_width_m: Single,
        footprint_depth_m: Single,
        wall_height_m: Single,
        ground_half_extent_m: Single,
        environment: RenderEnvironment,
    ) -> (r: SceneDescription)
        ensures
            r@ == bare_scene(
                footprint_width_m,
                footprint_depth_m,
                wall_height_m,
                ground_half_extent_m,
                environment,
            ),
    {
        let r = SceneDescription {
            footprint_width_m,
            footprint_depth_m,
            wall_height_m,
            ground_half_extent_m,
            facade: FacadeDescription::standard(),
            building_extensions: Vec::new(),
            environment,
            materials: MaterialSelection::standard(),
            site: SiteInfrastructure::for_scene(
                footprint_width_m,
                footprint_depth_m,
                ground_half_extent_m,
            ),
            signs: Vec::new(),
            background_buildings: Vec::new(),
            trees: Vec::new(),
            occluders: Vec::new(),
            lights: Vec::new(),
        };
        proof {
            assert(r@.building_extensions =~= Seq::empty());
            assert(r@.signs =~= Seq::empty());
            assert(r@.background_buildings =~= Seq::empty());
            assert(r@.trees =~= Seq::empty());
            assert(r@.occluders =~= Seq::empty());
            assert(r@.lights =~= Seq::empty());
        }
        r
    }

    /// Creates a visibly distinct city, urban, or remote context without external assets.
    pub fn contextual(
        footprint_width_m: Single,
        footprint_depth_m: Single,
        wall_height_m: Single,
        ground_half_extent_m: Single,
        environment: RenderEnvironment,
    ) -> (r: Result<SceneDescription, RenderError>)
        ensures
            ({
                let made = populated(
                    bare_scene(
                        footprint_width_m,
                        footprint_depth_m,
                        wall_height_m,
                        ground_half_extent_m,
                        environment,
                    ),
                );
                &&& r is Ok <==> made.sound()
                &&& r matches Ok(scene) ==> scene@ == made
                &&& r matches Err(error) ==> error == RenderError::InvalidSceneDescription
            }),
    {
        let mut scene = SceneDescription::new(
            footprint_width_m,
            footprint_depth_m,
            wall_height_m,
            ground_half_extent_m,
            environment,
        );
        scene.populate_context();
        match scene.validate() {
            Ok(()) => Ok(scene),
            Err(error) => Err(error),
        }
    }

    /// Replaces the surroundings by those of the domain.
    pub fn populate_context(&mut self)
        ensures
            final(self)@ == populated(old(self)@),
    {
        let g = self.ground_half_extent_m;
        let width = self.footprint_width_m;
        let depth = self.footprint_depth_m;
        let wall_height = self.wall_height_m;
        let domain = self.environment.domain;
        let time = self.environment.time_of_day;
        self.site = make_context_site(width, depth, g, domain);
        self.background_buildings = list_context_backgrounds(domain, g);
        self.trees = list_context_trees(domain, g);
        self.occluders = list_context_occluders(width, depth, wall_height, g);
        let mut signs: Vec<SignDescription> = Vec::new();
        signs.push(front_sign(width, depth, wall_height, time));
        self.signs = signs;
        if time != TimeOfDay::Day {
            let mut lights: Vec<SceneLight> = Vec::new();
            lights.push(entrance_light(depth));
            lights.push(parking_light(g));
            proof {
                assert(lights@ =~= seq![entrance_light(depth)].push(parking_light(g)));
            }
            self.lights = lights;
        }
        proof {
            assert(self.signs@ =~= seq![front_sign(width, depth, wall_height, time)]);
        }
    }
}

/// A city holds more neighbours than open country, which holds more trees.
pub proof fn density_follows_the_domain(g: Single)
    ensures
        context_backgrounds(EnvironmentDomain::City, g).len() > context_backgrounds(
            EnvironmentDomain::Urban,
            g,
        ).len(),
        context_backgrounds(EnvironmentDomain::Urban, g).len() > context_backgrounds(
            EnvironmentDomain::Remote,
            g,
        ).len(),
        context_trees(EnvironmentDomain::Remote, g).len() > context_trees(
            EnvironmentDomain::Urban,
            g,
        ).len(),
        context_trees(EnvironmentDomain::Urban, g).len() > context_trees(
            EnvironmentDomain::City,
            g,
        ).len(),
{
}

/// Populated surroundings are lit outside the day, and by day neither sign nor lamp is on.
pub proof fn only_dark_surroundings_are_lit(scene: SceneModel)
    requires
        scene.lights.len() == 0,
    ensures
        populated(scene).lights.len() > 0 <==> scene.environment.time_of_day != TimeOfDay::Day,
        populated(scene).lights.len() <= crate::scene::MAX_LIGHTS,
        populated(scene).signs.len() == 1,
        scene.environment.time_of_day == TimeOfDay::Day
            ==> populated(scene).signs[0].emissive_strength == Single::zero(),
{
}

/// What surrounds a building depends on nothing that surrounded it before, but for the
/// lights of a day.
pub proof fn population_replaces_surroundings(a: SceneModel, b: SceneModel)
    requires
        a.footprint_width_m == b.footprint_width_m,
        a.footprint_depth_m == b.footprint_depth_m,
        a.wall_height_m == b.wall_height_m,
        a.ground_half_extent_m == b.ground_half_extent_m,
        a.environment == b.environment,
    ensures
        populated(a).site == populated(b).site,
        populated(a).background_buildings == populated(b).background_buildings,
        populated(a).trees == populated(b).trees,
        populated(a).occluders == populated(b).occluders,
        populated(a).signs == populated(b).signs,
        populated(populated(a)) == populated(a),
{
}

} // verus!
