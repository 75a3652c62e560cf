//! Sampling of the site: facade, extensions, signs, neighbours, plants and infrastructure.

use crate::check_scene::{footprint_radius, half_diagonal};
use crate::choice::{
    opposite_facade, sample_background_kind, sample_extension_count, sample_extension_kind,
    sample_extension_roof, sample_facade_side, sample_sign_kind, sample_vegetation_kind,
};
use crate::composition::{
    BackgroundBuildingKind, BackgroundBuildingSamplingConfig, BuildingExtensionKind,
    BuildingExtensionRoof, BuildingExtensionSamplingConfig, DayPhase, FacadeSamplingConfig,
    FacadeSide, SampledBackgroundBuilding, SampledBuildingExtension, SampledFacade, SampledSignage,
    SampledSiteInfrastructure, SampledUtilityLine, SampledUtilityPole, SampledVegetation,
    SceneDomain, SceneDomainProfile, SignageKind, SignageSamplingConfig, VegetationKind,
    VegetationSamplingConfig,
};
use crate::config::MaterialChoice;
use crate::draws::{Draws, coin_of, sign_of, unit_of};
use crate::geometry::Turn;
use crate::plan::{SampledBuilding, SampledMaterial};
use crate::sample_shell::resolved_material;
use crate::single::Single;
use crate::types::{FloatRange, U32Range, Vec2, Vec3};
use vstd::prelude::*;

verus! {

/// A full turn in radians.
pub open spec fn spec_tau() -> Single {
    Single { bits: 0x40c9_0fdb }
}

/// A full turn in radians.
#[verifier::when_used_as_spec(spec_tau)]
pub fn tau() -> (r: Single)
    ensures
        r == spec_tau(),
{
    Single { bits: 0x40c9_0fdb }
}

/// An angle in degrees.
pub open spec fn spec_degrees(radians: Single) -> Single {
    radians.times(Single { bits: 0x4265_2ee1 })
}

/// An angle in degrees.
#[verifier::when_used_as_spec(spec_degrees)]
pub fn degrees(radians: Single) -> (r: Single)
    ensures
        r == spec_degrees(radians),
{
    radians.times(Single { bits: 0x4265_2ee1 })
}

/// The common part of two integer ranges, which need not be ordered.
pub open spec fn spec_intersect_u32_ranges(left: U32Range, right: U32Range) -> U32Range {
    U32Range::new(
        if left.min < right.min {
            right.min
        } else {
            left.min
        },
        if left.max < right.max {
            left.max
        } else {
            right.max
        },
    )
}

/// The common part of two integer ranges, which need not be ordered.
#[verifier::when_used_as_spec(spec_intersect_u32_ranges)]
pub fn intersect_u32_ranges(left: U32Range, right: U32Range) -> (r: U32Range)
    ensures
        r == spec_intersect_u32_ranges(left, right),
{
    U32Range::new(
        if left.min < right.min {
            right.min
        } else {
            left.min
        },
        if left.max < right.max {
            left.max
        } else {
            right.max
        },
    )
}

/// The width of a facade.
pub open spec fn spec_facade_width(building: SampledBuilding, facade: FacadeSide) -> Single {
    match facade {
        FacadeSide::Front => building.footprint_width_m,
        FacadeSide::Back => building.footprint_width_m,
        FacadeSide::Right => building.footprint_depth_m,
        FacadeSide::Left => building.footprint_depth_m,
    }
}

/// The width of a facade.
#[verifier::when_used_as_spec(spec_facade_width)]
pub fn facade_width(building: SampledBuilding, facade: FacadeSide) -> (r: Single)
    ensures
        r == spec_facade_width(building, facade),
{
    match facade {
        FacadeSide::Front => building.footprint_width_m,
        FacadeSide::Back => building.footprint_width_m,
        FacadeSide::Right => building.footprint_depth_m,
        FacadeSide::Left => building.footprint_depth_m,
    }
}

/// The facade detail that a glazing material, an entrance side and three fractions give.
pub open spec fn facade_from(
    config: FacadeSamplingConfig,
    building: SampledBuilding,
    glazing_material: SampledMaterial,
    entrance_side: FacadeSide,
    u: [Single; 3],
) -> SampledFacade {
    SampledFacade {
        glazing_fraction: config.glazing_fraction.at(u[0]),
        glazing_material,
        entrance_side,
        entrance_width_m: entrance_width(config.entrance_width_m.at(u[1]), building),
        weathering: config.weathering.at(u[2]),
    }
}

/// The width of an entrance, kept to a third of the narrower facade.
pub open spec fn spec_entrance_width(width: Single, building: SampledBuilding) -> Single {
    width.min(
        building.footprint_width_m.min(building.footprint_depth_m).times(Single::ratio(32, 100)),
    )
}

/// The width of an entrance, kept to a third of the narrower facade.
#[verifier::when_used_as_spec(spec_entrance_width)]
pub fn entrance_width(width: Single, building: SampledBuilding) -> (r: Single)
    ensures
        r == spec_entrance_width(width, building),
{
    width.min(
        building.footprint_width_m.min(building.footprint_depth_m).times(Single::ratio(32, 100)),
    )
}

/// The facade detail of a seed.
pub open spec fn facade_of(
    seed: u64,
    config: FacadeSamplingConfig,
    building: SampledBuilding,
) -> SampledFacade {
    let d = Draws::of(seed, "facade");
    let (material, after) = crate::sample_shell::palette_material(
        d.skip(1),
        config.glazing_materials@,
    );
    let (side, last) = sample_facade_side(after);
    facade_from(config, building, material, side, [d.unit(), last.unit(), last.skip(1).unit()])
}

/// Samples facade detail.
pub fn sample_facade(seed: u64, config: &FacadeSamplingConfig, building: SampledBuilding) -> (r:
    SampledFacade)
    requires
        config.glazing_materials@.len() <= u32::MAX,
        crate::choice::total_weight(
            crate::choice::material_weights(config.glazing_materials@),
        ) > 0,
    ensures
        r == facade_of(seed, *config, building),
{
    let d = Draws::of(seed, "facade");
    let glazed = resolved_material(d.skip(1), &config.glazing_materials);
    let sided = sample_facade_side(glazed.1);
    let last = sided.1;
    let w = last.words();
    SampledFacade {
        glazing_fraction: config.glazing_fraction.at(d.unit()),
        glazing_material: glazed.0,
        entrance_side: sided.0,
        entrance_width_m: entrance_width(config.entrance_width_m.at(unit_of(w[0])), building),
        weathering: config.weathering.at(unit_of(w[1])),
    }
}

/// How wide an extension of a kind is, relative to a dining wing.
pub open spec fn spec_width_scale(kind: BuildingExtensionKind) -> Single {
    match kind {
        BuildingExtensionKind::DiningWing => Single::one(),
        BuildingExtensionKind::EntranceVestibule => Single::ratio(56, 100),
        BuildingExtensionKind::ServiceAnnex => Single::ratio(78, 100),
    }
}

/// How wide an extension of a kind is, relative to a dining wing.
#[verifier::when_used_as_spec(spec_width_scale)]
pub fn width_scale(kind: BuildingExtensionKind) -> (r: Single)
    ensures
        r == spec_width_scale(kind),
{
    match kind {
        BuildingExtensionKind::DiningWing => Single::one(),
        BuildingExtensionKind::EntranceVestibule => Single::ratio(56, 100),
        BuildingExtensionKind::ServiceAnnex => Single::ratio(78, 100),
    }
}

/// How deep an extension of a kind is, relative to a dining wing.
pub open spec fn spec_depth_scale(kind: BuildingExtensionKind) -> Single {
    match kind {
        BuildingExtensionKind::DiningWing => Single::one(),
        BuildingExtensionKind::EntranceVestibule => Single::ratio(58, 100),
        BuildingExtensionKind::ServiceAnnex => Single::ratio(82, 100),
    }
}

/// How deep an extension of a kind is, relative to a dining wing.
#[verifier::when_used_as_spec(spec_depth_scale)]
pub fn depth_scale(kind: BuildingExtensionKind) -> (r: Single)
    ensures
        r == spec_depth_scale(kind),
{
    match kind {
        BuildingExtensionKind::DiningWing => Single::one(),
        BuildingExtensionKind::EntranceVestibule => Single::ratio(58, 100),
        BuildingExtensionKind::ServiceAnnex => Single::ratio(82, 100),
    }
}

/// Where an extension stands at a facade.
pub open spec fn spec_extension_position(
    building: SampledBuilding,
    facade: FacadeSide,
    offset: Single,
    projection: Single,
) -> Vec3 {
    match facade {
        FacadeSide::Front => Vec3::new(
            offset,
            Single::zero(),
            building.footprint_depth_m.negated().times(Single::ratio(5, 10)).minus(
                projection.times(Single::ratio(5, 10)),
            ).plus(Single::ratio(12, 100)),
        ),
        FacadeSide::Back => Vec3::new(
            offset,
            Single::zero(),
            building.footprint_depth_m.times(Single::ratio(5, 10)).plus(
                projection.times(Single::ratio(5, 10)),
            ).minus(Single::ratio(12, 100)),
        ),
        FacadeSide::Right => Vec3::new(
            building.footprint_width_m.times(Single::ratio(5, 10)).plus(
                projection.times(Single::ratio(5, 10)),
            ).minus(Single::ratio(12, 100)),
            Single::zero(),
            offset,
        ),
        FacadeSide::Left => Vec3::new(
            building.footprint_width_m.negated().times(Single::ratio(5, 10)).minus(
                projection.times(Single::ratio(5, 10)),
            ).plus(Single::ratio(12, 100)),
            Single::zero(),
            offset,
        ),
    }
}

/// Where an extension stands at a facade.
#[verifier::when_used_as_spec(spec_extension_position)]
pub fn extension_position(
    building: SampledBuilding,
    facade: FacadeSide,
    offset: Single,
    projection: Single,
) -> (r: Vec3)
    ensures
        r == spec_extension_position(building, facade, offset, projection),
{
    match facade {
        FacadeSide::Front => Vec3::new(
            offset,
            Single::zero(),
            building.footprint_depth_m.negated().times(Single::ratio(5, 10)).minus(
                projection.times(Single::ratio(5, 10)),
            ).plus(Single::ratio(12, 100)),
        ),
        FacadeSide::Back => Vec3::new(
            offset,
            Single::zero(),
            building.footprint_depth_m.times(Single::ratio(5, 10)).plus(
                projection.times(Single::ratio(5, 10)),
            ).minus(Single::ratio(12, 100)),
        ),
        FacadeSide::Right => Vec3::new(
            building.footprint_width_m.times(Single::ratio(5, 10)).plus(
                projection.times(Single::ratio(5, 10)),
            ).minus(Single::ratio(12, 100)),
            Single::zero(),
            offset,
        ),
        FacadeSide::Left => Vec3::new(
            building.footprint_width_m.negated().times(Single::ratio(5, 10)).minus(
                projection.times(Single::ratio(5, 10)),
            ).plus(Single::ratio(12, 100)),
            Single::zero(),
            offset,
        ),
    }
}

/// The size of an extension at a facade.
pub open spec fn spec_extension_size(
    facade: FacadeSide,
    width: Single,
    height: Single,
    projection: Single,
) -> Vec3 {
    match facade {
        FacadeSide::Front => Vec3::new(width, height, projection),
        FacadeSide::Back => Vec3::new(width, height, projection),
        FacadeSide::Right => Vec3::new(projection, height, width),
        FacadeSide::Left => Vec3::new(projection, height, width),
    }
}

/// The size of an extension at a facade.
#[verifier::when_used_as_spec(spec_extension_size)]
pub fn extension_size(
    facade: FacadeSide,
    width: Single,
    height: Single,
    projection: Single,
) -> (r: Vec3)
    ensures
        r == spec_extension_size(facade, width, height, projection),
{
    match facade {
        FacadeSide::Front => Vec3::new(width, height, projection),
        FacadeSide::Back => Vec3::new(width, height, projection),
        FacadeSide::Right => Vec3::new(projection, height, width),
        FacadeSide::Left => Vec3::new(projection, height, width),
    }
}

/// The extension that five fractions give at a facade.
pub open spec fn spec_extension_from(
    config: BuildingExtensionSamplingConfig,
    building: SampledBuilding,
    facade: FacadeSide,
    kind: BuildingExtensionKind,
    roof: BuildingExtensionRoof,
    u: [Single; 5],
) -> SampledBuildingExtension {
    let span = facade_width(building, facade);
    let width = span.times(config.facade_width_fraction.at(u[0])).times(width_scale(kind)).clamp(
        Single::ratio(24, 10),
        span.times(Single::ratio(72, 100)),
    );
    let projection = config.projection_m.at(u[1]).times(depth_scale(kind)).clamp(
        Single::ratio(12, 10),
        Single::ratio(65, 10),
    );
    let remaining = span.minus(width).minus(Single::ratio(8, 10)).max(Single::zero());
    let offset = config.facade_offset_fraction.at(u[2]).times(remaining).times(
        Single::ratio(5, 10),
    );
    let height = building.wall_height_m.times(config.wall_height_fraction.at(u[3])).clamp(
        Single::ratio(215, 100),
        building.wall_height_m.minus(Single::ratio(45, 100)),
    );
    let maximum_rise = building.wall_height_m.minus(height).minus(Single::ratio(18, 100)).max(
        Single::ratio(8, 100),
    );
    let roof_rise_m = if roof == BuildingExtensionRoof::Shed {
        config.shed_rise_m.at(u[4]).min(maximum_rise)
    } else {
        Single::zero()
    };
    SampledBuildingExtension {
        kind,
        facade,
        position: extension_position(building, facade, offset, projection),
        size_m: extension_size(facade, width, height, projection),
        roof,
        roof_rise_m,
    }
}

/// The extension that five fractions give at a facade.
#[verifier::when_used_as_spec(spec_extension_from)]
pub fn extension_from(
    config: BuildingExtensionSamplingConfig,
    building: SampledBuilding,
    facade: FacadeSide,
    kind: BuildingExtensionKind,
    roof: BuildingExtensionRoof,
    u: [Single; 5],
) -> (r: SampledBuildingExtension)
    ensures
        r == spec_extension_from(config, building, facade, kind, roof, u),
{
    let span = facade_width(building, facade);
    let width = span.times(config.facade_width_fraction.at(u[0])).times(width_scale(kind)).clamp(
        Single::ratio(24, 10),
        span.times(Single::ratio(72, 100)),
    );
    let projection = config.projection_m.at(u[1]).times(depth_scale(kind)).clamp(
        Single::ratio(12, 10),
        Single::ratio(65, 10),
    );
    let remaining = span.minus(width).minus(Single::ratio(8, 10)).max(Single::zero());
    let offset = config.facade_offset_fraction.at(u[2]).times(remaining).times(
        Single::ratio(5, 10),
    );
    let height = building.wall_height_m.times(config.wall_height_fraction.at(u[3])).clamp(
        Single::ratio(215, 100),
        building.wall_height_m.minus(Single::ratio(45, 100)),
    );
    let maximum_rise = building.wall_height_m.minus(height).minus(Single::ratio(18, 100)).max(
        Single::ratio(8, 100),
    );
    let roof_rise_m = if roof == BuildingExtensionRoof::Shed {
        config.shed_rise_m.at(u[4]).min(maximum_rise)
    } else {
        Single::zero()
    };
    SampledBuildingExtension {
        kind,
        facade,
        position: extension_position(building, facade, offset, projection),
        size_m: extension_size(facade, width, height, projection),
        roof,
        roof_rise_m,
    }
}

/// The place after the fractions of an extension.
pub open spec fn spec_after_extension(d: Draws, roof: BuildingExtensionRoof) -> Draws {
    if roof == BuildingExtensionRoof::Shed {
        d.skip(5)
    } else {
        d.skip(4)
    }
}

/// The place after the fractions of an extension.
#[verifier::when_used_as_spec(spec_after_extension)]
pub fn after_extension(d: Draws, roof: BuildingExtensionRoof) -> (r: Draws)
    ensures
        r == spec_after_extension(d, roof),
{
    if roof == BuildingExtensionRoof::Shed {
        d.skip(5)
    } else {
        d.skip(4)
    }
}

/// Samples an extension at a facade, and gives the place after it.
pub open spec fn spec_sample_extension(
    d: Draws,
    config: BuildingExtensionSamplingConfig,
    building: SampledBuilding,
    facade: FacadeSide,
) -> (SampledBuildingExtension, Draws) {
    let kind = sample_extension_kind(d, config);
    let roof = sample_extension_roof(kind.1, config);
    let e = roof.1;
    (
        extension_from(
            config,
            building,
            facade,
            kind.0,
            roof.0,
            [
                e.unit(),
                e.skip(1).unit(),
                e.skip(2).unit(),
                e.skip(3).unit(),
                e.skip(4).unit(),
            ],
        ),
        after_extension(e, roof.0),
    )
}

/// Samples an extension at a facade, and gives the place after it.
#[verifier::when_used_as_spec(spec_sample_extension)]
pub fn sample_extension(
    d: Draws,
    config: BuildingExtensionSamplingConfig,
    building: SampledBuilding,
    facade: FacadeSide,
) -> (r: (SampledBuildingExtension, Draws))
    requires
        crate::choice::total_weight(crate::choice::extension_kind_weights(config)) > 0,
        crate::choice::total_weight(crate::choice::extension_roof_weights(config)) > 0,
    ensures
        r == spec_sample_extension(d, config, building, facade),
{
    let kind = sample_extension_kind(d, config);
    let roof = sample_extension_roof(kind.1, config);
    let e = roof.1;
    let w = e.words();
    (
        extension_from(
            config,
            building,
            facade,
            kind.0,
            roof.0,
            [
                unit_of(w[0]),
                unit_of(w[1]),
                unit_of(w[2]),
                unit_of(w[3]),
                unit_of(w[4]),
            ],
        ),
        after_extension(e, roof.0),
    )
}

/// The extensions of a seed: none, one, or two at opposite facades.
pub open spec fn extensions_of(
    seed: u64,
    config: BuildingExtensionSamplingConfig,
    building: SampledBuilding,
) -> Seq<SampledBuildingExtension> {
    let (count, d) = sample_extension_count(Draws::of(seed, "building-extensions"), config);
    if count == 0 {
        Seq::empty()
    } else {
        let (facade, e) = sample_facade_side(d);
        let (first, f) = sample_extension(e, config, building, facade);
        if count == 1 {
            seq![first]
        } else {
            seq![first, sample_extension(f, config, building, opposite_facade(facade)).0]
        }
    }
}

/// Samples the extensions of a building: none, one, or two at opposite facades.
pub fn sample_building_extensions(
    seed: u64,
    config: BuildingExtensionSamplingConfig,
    building: SampledBuilding,
) -> (r: Vec<SampledBuildingExtension>)
    requires
        crate::choice::total_weight(crate::choice::extension_count_weights(config)) > 0,
        crate::choice::total_weight(crate::choice::extension_kind_weights(config)) > 0,
        crate::choice::total_weight(crate::choice::extension_roof_weights(config)) > 0,
    ensures
        r@ == extensions_of(seed, config, building),
{
    let counted = sample_extension_count(Draws::of(seed, "building-extensions"), config);
    let mut r: Vec<SampledBuildingExtension> = Vec::new();
    if counted.0 > 0 {
        let side = sample_facade_side(counted.1);
        let first = sample_extension(side.1, config, building, side.0);
        r.push(first.0);
        if counted.0 > 1 {
            let second = sample_extension(first.1, config, building, opposite_facade(side.0));
            r.push(second.0);
        }
    }
    assert(r@ =~= extensions_of(seed, config, building));
    r
}

/// Two extensions of a seed never stand at the same facade.
pub proof fn extensions_stand_at_distinct_facades(
    seed: u64,
    config: BuildingExtensionSamplingConfig,
    building: SampledBuilding,
)
    ensures
        extensions_of(seed, config, building).len() <= 2,
        forall|i: int, j: int|
            0 <= i < j < extensions_of(seed, config, building).len() ==> (
            #[trigger] extensions_of(seed, config, building)[i]).facade != (
            #[trigger] extensions_of(seed, config, building)[j]).facade,
{
}

/// How bright a sign is in a phase of the day.
pub open spec fn spec_sign_light(phase: DayPhase) -> Single {
    match phase {
        DayPhase::Day => Single::zero(),
        DayPhase::Twilight => Single::ratio(48, 100),
        DayPhase::Night => Single::one(),
    }
}

/// How bright a sign is in a phase of the day.
#[verifier::when_used_as_spec(spec_sign_light)]
pub fn sign_light(phase: DayPhase) -> (r: Single)
    ensures
        r == spec_sign_light(phase),
{
    match phase {
        DayPhase::Day => Single::zero(),
        DayPhase::Twilight => Single::ratio(48, 100),
        DayPhase::Night => Single::one(),
    }
}

/// How weathered a sign of a kind can be.
pub open spec fn spec_sign_weathering(kind: SignageKind) -> FloatRange {
    match kind {
        SignageKind::RemovedGhost => FloatRange::decimal(52, 100, 100),
        SignageKind::PizzaHut => FloatRange::decimal(0, 66, 100),
        SignageKind::RebrandedTenant => FloatRange::decimal(0, 52, 100),
    }
}

/// How weathered a sign of a kind can be.
#[verifier::when_used_as_spec(spec_sign_weathering)]
pub fn sign_weathering(kind: SignageKind) -> (r: FloatRange)
    ensures
        r == spec_sign_weathering(kind),
{
    match kind {
        SignageKind::RemovedGhost => FloatRange::decimal(52, 100, 100),
        SignageKind::PizzaHut => FloatRange::decimal(0, 66, 100),
        SignageKind::RebrandedTenant => FloatRange::decimal(0, 52, 100),
    }
}

/// The middle of a sign just outside a facade.
pub open spec fn spec_sign_center(
    building: SampledBuilding,
    facade: FacadeSide,
    horizontal: Single,
    center_y: Single,
) -> Vec3 {
    match facade {
        FacadeSide::Front => Vec3::new(
            horizontal,
            center_y,
            building.footprint_depth_m.negated().times(Single::ratio(5, 10)).minus(
                Single::ratio(35, 1000),
            ),
        ),
        FacadeSide::Right => Vec3::new(
            building.footprint_width_m.times(Single::ratio(5, 10)).plus(Single::ratio(35, 1000)),
            center_y,
            horizontal,
        ),
        FacadeSide::Back => Vec3::new(
            horizontal.negated(),
            center_y,
            building.footprint_depth_m.times(Single::ratio(5, 10)).plus(Single::ratio(35, 1000)),
        ),
        FacadeSide::Left => Vec3::new(
            building.footprint_width_m.negated().times(Single::ratio(5, 10)).minus(
                Single::ratio(35, 1000),
            ),
            center_y,
            horizontal.negated(),
        ),
    }
}

/// The middle of a sign just outside a facade.
#[verifier::when_used_as_spec(spec_sign_center)]
pub fn sign_center(
    building: SampledBuilding,
    facade: FacadeSide,
    horizontal: Single,
    center_y: Single,
) -> (r: Vec3)
    ensures
        r == spec_sign_center(building, facade, horizontal, center_y),
{
    match facade {
        FacadeSide::Front => Vec3::new(
            horizontal,
            center_y,
            building.footprint_depth_m.negated().times(Single::ratio(5, 10)).minus(
                Single::ratio(35, 1000),
            ),
        ),
        FacadeSide::Right => Vec3::new(
            building.footprint_width_m.times(Single::ratio(5, 10)).plus(Single::ratio(35, 1000)),
            center_y,
            horizontal,
        ),
        FacadeSide::Back => Vec3::new(
            horizontal.negated(),
            center_y,
            building.footprint_depth_m.times(Single::ratio(5, 10)).plus(Single::ratio(35, 1000)),
        ),
        FacadeSide::Left => Vec3::new(
            building.footprint_width_m.negated().times(Single::ratio(5, 10)).minus(
                Single::ratio(35, 1000),
            ),
            center_y,
            horizontal.negated(),
        ),
    }
}

/// The sign of a kind that a coin and six fractions give at a facade.
pub open spec fn spec_sign_from(
    config: SignageSamplingConfig,
    building: SampledBuilding,
    phase: DayPhase,
    kind: SignageKind,
    facade: FacadeSide,
    side: Single,
    u: [Single; 6],
) -> SampledSignage {
    let span = facade_width(building, facade);
    let width = span.times(config.width_fraction.at(u[0])).min(span.minus(Single::ratio(8, 10)));
    let height = config.height_m.at(u[1]).min(building.wall_height_m.times(Single::ratio(36, 100)));
    let center_y = building.wall_height_m.times(config.vertical_fraction.at(u[2])).clamp(
        height.times(Single::ratio(5, 10)).plus(Single::ratio(15, 100)),
        building.wall_height_m.minus(height.times(Single::ratio(5, 10))).minus(
            Single::ratio(15, 100),
        ),
    );
    let available = span.minus(width).times(Single::ratio(42, 100));
    let horizontal = side.times(available).times(u[3]);
    SampledSignage {
        kind,
        facade,
        center: sign_center(building, facade, horizontal, center_y),
        size_m: Vec2::new(width, height),
        emissive_strength: if kind == SignageKind::RemovedGhost {
            Single::zero()
        } else {
            config.emissive_strength.at(u[4]).times(sign_light(phase))
        },
        weathering: sign_weathering(kind).at(u[5]),
    }
}

/// The sign of a kind that a coin and six fractions give at a facade.
#[verifier::when_used_as_spec(spec_sign_from)]
pub fn sign_from(
    config: SignageSamplingConfig,
    building: SampledBuilding,
    phase: DayPhase,
    kind: SignageKind,
    facade: FacadeSide,
    side: Single,
    u: [Single; 6],
) -> (r: SampledSignage)
    ensures
        r == spec_sign_from(config, building, phase, kind, facade, side, u),
{
    let span = facade_width(building, facade);
    let width = span.times(config.width_fraction.at(u[0])).min(span.minus(Single::ratio(8, 10)));
    let height = config.height_m.at(u[1]).min(building.wall_height_m.times(Single::ratio(36, 100)));
    let center_y = building.wall_height_m.times(config.vertical_fraction.at(u[2])).clamp(
        height.times(Single::ratio(5, 10)).plus(Single::ratio(15, 100)),
        building.wall_height_m.minus(height.times(Single::ratio(5, 10))).minus(
            Single::ratio(15, 100),
        ),
    );
    let available = span.minus(width).times(Single::ratio(42, 100));
    let horizontal = side.times(available).times(u[3]);
    SampledSignage {
        kind,
        facade,
        center: sign_center(building, facade, horizontal, center_y),
        size_m: Vec2::new(width, height),
        emissive_strength: if kind == SignageKind::RemovedGhost {
            Single::zero()
        } else {
            config.emissive_strength.at(u[4]).times(sign_light(phase))
        },
        weathering: sign_weathering(kind).at(u[5]),
    }
}

/// The place of the last fraction of a sign: a removed one draws no brightness.
pub open spec fn spec_sign_weathering_draw(d: Draws, kind: SignageKind) -> Draws {
    if kind == SignageKind::RemovedGhost {
        d.skip(5)
    } else {
        d.skip(6)
    }
}

/// The place of the last fraction of a sign: a removed one draws no brightness.
#[verifier::when_used_as_spec(spec_sign_weathering_draw)]
pub fn sign_weathering_draw(d: Draws, kind: SignageKind) -> (r: Draws)
    ensures
        r == spec_sign_weathering_draw(d, kind),
{
    if kind == SignageKind::RemovedGhost {
        d.skip(5)
    } else {
        d.skip(6)
    }
}

/// Samples a sign of a kind.
pub open spec fn spec_sample_sign(
    d: Draws,
    config: SignageSamplingConfig,
    building: SampledBuilding,
    phase: DayPhase,
    kind: SignageKind,
) -> SampledSignage {
    let facade = sample_facade_side(d);
    let e = facade.1;
    sign_from(
        config,
        building,
        phase,
        kind,
        facade.0,
        e.skip(3).sign(),
        [
            e.unit(),
            e.skip(1).unit(),
            e.skip(2).unit(),
            e.skip(4).unit(),
            e.skip(5).unit(),
            sign_weathering_draw(e, kind).unit(),
        ],
    )
}

/// Samples a sign of a kind.
#[verifier::when_used_as_spec(spec_sample_sign)]
pub fn sample_sign(
    d: Draws,
    config: SignageSamplingConfig,
    building: SampledBuilding,
    phase: DayPhase,
    kind: SignageKind,
) -> (r: SampledSignage)
    ensures
        r == spec_sample_sign(d, config, building, phase, kind),
{
    let facade = sample_facade_side(d);
    let e = facade.1;
    let w = e.words();
    sign_from(
        config,
        building,
        phase,
        kind,
        facade.0,
        sign_of(coin_of(w[3])),
        [
            unit_of(w[0]),
            unit_of(w[1]),
            unit_of(w[2]),
            unit_of(w[4]),
            unit_of(w[5]),
            sign_weathering_draw(e, kind).unit(),
        ],
    )
}

/// The signs of a seed: none or one.
pub open spec fn signs_of(
    seed: u64,
    config: SignageSamplingConfig,
    building: SampledBuilding,
    phase: DayPhase,
) -> Seq<SampledSignage> {
    let (kind, d) = sample_sign_kind(Draws::of(seed, "signage"), config);
    match kind {
        None => Seq::empty(),
        Some(kind) => seq![sample_sign(d, config, building, phase, kind)],
    }
}

/// Samples the signs of a building: none or one.
pub fn sample_signage(
    seed: u64,
    config: SignageSamplingConfig,
    building: SampledBuilding,
    phase: DayPhase,
) -> (r: Vec<SampledSignage>)
    requires
        crate::choice::total_weight(crate::choice::sign_weights(config)) > 0,
    ensures
        r@ == signs_of(seed, config, building, phase),
{
    let kind = sample_sign_kind(Draws::of(seed, "signage"), config);
    let mut r: Vec<SampledSignage> = Vec::new();
    if let Some(found) = kind.0 {
        r.push(sample_sign(kind.1, config, building, phase, found));
    }
    assert(r@ =~= signs_of(seed, config, building, phase));
    r
}

/// The ghost of a removed sign does not shine, whatever is drawn.
pub proof fn removed_signs_do_not_shine(
    config: SignageSamplingConfig,
    building: SampledBuilding,
    phase: DayPhase,
    facade: FacadeSide,
    side: Single,
    u: [Single; 6],
)
    ensures
        sign_from(
            config,
            building,
            phase,
            SignageKind::RemovedGhost,
            facade,
            side,
            u,
        ).emissive_strength == Single::zero(),
{
}

/// A background building whose place still is an angle and a distance.
#[derive(Clone, Debug, PartialEq, Eq)]
pub struct BackgroundPlacement {
    /// Kind of building.
    pub kind: BackgroundBuildingKind,
    /// Direction from the origin, in radians.
    pub angle: Single,
    /// Distance from the origin in metres.
    pub distance: Single,
    /// Width, height, and depth in metres.
    pub size_m: Vec3,
    /// World-Y rotation in degrees.
    pub yaw_degrees: Single,
    /// Resolved wall material.
    pub material: SampledMaterial,
}

/// The point at a distance in a direction.
pub open spec fn spec_ground_point(turn: Turn, distance: Single) -> Vec3 {
    Vec3::new(turn.cosine.times(distance), Single::zero(), turn.sine.times(distance))
}

/// The point at a distance in a direction.
#[verifier::when_used_as_spec(spec_ground_point)]
pub fn ground_point(turn: Turn, distance: Single) -> (r: Vec3)
    ensures
        r == spec_ground_point(turn, distance),
{
    Vec3::new(turn.cosine.times(distance), Single::zero(), turn.sine.times(distance))
}

impl BackgroundPlacement {
    /// The building at its place, once the turn of its angle is known.
    pub open spec fn placed(self, turn: Turn) -> SampledBackgroundBuilding {
        SampledBackgroundBuilding {
            kind: self.kind,
            position: ground_point(turn, self.distance),
            size_m: self.size_m,
            yaw_degrees: self.yaw_degrees,
            material: self.material,
        }
    }

    /// Puts the building at its place, given the turn of its angle.
    pub fn place(&self, turn: Turn) -> (r: SampledBackgroundBuilding)
        ensures
            r == self.placed(turn),
    {
        SampledBackgroundBuilding {
            kind: self.kind,
            position: ground_point(turn, self.distance),
            size_m: self.size_m,
            yaw_degrees: self.yaw_degrees,
            material: self.material.duplicate(),
        }
    }
}

/// The height of a background building, kept to what its kind has.
pub open spec fn spec_background_height(kind: BackgroundBuildingKind, height: Single) -> Single {
    match kind {
        BackgroundBuildingKind::MidriseMixedUse => height.clamp(
            Single::ratio(9, 1),
            Single::ratio(28, 1),
        ),
        BackgroundBuildingKind::LowCommercial => height.clamp(
            Single::ratio(32, 10),
            Single::ratio(95, 10),
        ),
        BackgroundBuildingKind::Residential => height.clamp(
            Single::ratio(32, 10),
            Single::ratio(85, 10),
        ),
        BackgroundBuildingKind::IndustrialShed => height.clamp(
            Single::ratio(4, 1),
            Single::ratio(11, 1),
        ),
    }
}

/// The height of a background building, kept to what its kind has.
#[verifier::when_used_as_spec(spec_background_height)]
pub fn background_height(kind: BackgroundBuildingKind, height: Single) -> (r: Single)
    ensures
        r == spec_background_height(kind, height),
{
    match kind {
        BackgroundBuildingKind::MidriseMixedUse => height.clamp(
            Single::ratio(9, 1),
            Single::ratio(28, 1),
        ),
        BackgroundBuildingKind::LowCommercial => height.clamp(
            Single::ratio(32, 10),
            Single::ratio(95, 10),
        ),
        BackgroundBuildingKind::Residential => height.clamp(
            Single::ratio(32, 10),
            Single::ratio(85, 10),
        ),
        BackgroundBuildingKind::IndustrialShed => height.clamp(
            Single::ratio(4, 1),
            Single::ratio(11, 1),
        ),
    }
}

/// Size, direction, distance and yaw of a background building.
#[derive(Clone, Copy, Debug, PartialEq, Eq, Structural)]
pub struct BackgroundShape {
    /// Direction from the origin, in radians.
    pub angle: Single,
    /// Distance from the origin in metres.
    pub distance: Single,
    /// Width, height, and depth in metres.
    pub size_m: Vec3,
    /// World-Y rotation in degrees.
    pub yaw_degrees: Single,
}

/// The direction of the object with an index out of `count`, moved by a share of a step.
pub open spec fn spec_spread_angle(
    base_angle: Single,
    count: u32,
    index: u32,
    share: Single,
    fraction: Single,
) -> Single {
    let step = tau().over(Single::from_u32(count));
    base_angle.plus(Single::from_u32(index).times(step)).plus(
        fraction.minus(Single::ratio(5, 10)).times(step).times(share),
    )
}

/// The direction of the object with an index out of `count`, moved by a share of a step.
#[verifier::when_used_as_spec(spec_spread_angle)]
pub fn spread_angle(
    base_angle: Single,
    count: u32,
    index: u32,
    share: Single,
    fraction: Single,
) -> (r: Single)
    ensures
        r == spec_spread_angle(base_angle, count, index, share, fraction),
{
    let step = tau().over(Single::from_u32(count));
    base_angle.plus(Single::from_u32(index).times(step)).plus(
        fraction.minus(Single::ratio(5, 10)).times(step).times(share),
    )
}

/// The shape that six fractions give.
pub open spec fn spec_background_shape(
    config: BackgroundBuildingSamplingConfig,
    building: SampledBuilding,
    kind: BackgroundBuildingKind,
    base_angle: Single,
    count: u32,
    index: u32,
    u: [Single; 6],
) -> BackgroundShape {
    let width = config.width_m.at(u[0]);
    let depth = config.depth_m.at(u[1]);
    let height = background_height(kind, config.height_m.at(u[2]));
    let step = tau().over(Single::from_u32(count));
    let jitter = u[3].minus(Single::ratio(5, 10)).times(step).times(Single::ratio(42, 100));
    let angle = base_angle.plus(Single::from_u32(index).times(step)).plus(jitter);
    BackgroundShape {
        angle,
        distance: footprint_radius(building).plus(half_diagonal(width, depth)).plus(
            config.setback_m.at(u[4]),
        ),
        size_m: Vec3::new(width, height, depth),
        yaw_degrees: degrees(angle).plus(Single::ratio(90, 1)).plus(
            config.yaw_jitter_degrees.at(u[5]),
        ),
    }
}

/// The shape that six fractions give.
#[verifier::when_used_as_spec(spec_background_shape)]
pub fn background_shape(
    config: BackgroundBuildingSamplingConfig,
    building: SampledBuilding,
    kind: BackgroundBuildingKind,
    base_angle: Single,
    count: u32,
    index: u32,
    u: [Single; 6],
) -> (r: BackgroundShape)
    ensures
        r == spec_background_shape(config, building, kind, base_angle, count, index, u),
{
    let width = config.width_m.at(u[0]);
    let depth = config.depth_m.at(u[1]);
    let height = background_height(kind, config.height_m.at(u[2]));
    let step = tau().over(Single::from_u32(count));
    let jitter = u[3].minus(Single::ratio(5, 10)).times(step).times(Single::ratio(42, 100));
    let angle = base_angle.plus(Single::from_u32(index).times(step)).plus(jitter);
    BackgroundShape {
        angle,
        distance: footprint_radius(building).plus(half_diagonal(width, depth)).plus(
            config.setback_m.at(u[4]),
        ),
        size_m: Vec3::new(width, height, depth),
        yaw_degrees: degrees(angle).plus(Single::ratio(90, 1)).plus(
            config.yaw_jitter_degrees.at(u[5]),
        ),
    }
}

/// The background building with an index, and the place after it.
pub open spec fn background_at(
    d: Draws,
    config: BackgroundBuildingSamplingConfig,
    walls: Seq<MaterialChoice>,
    building: SampledBuilding,
    domain: SceneDomain,
    base_angle: Single,
    count: u32,
    index: u32,
) -> (BackgroundPlacement, Draws) {
    let (kind, e) = sample_background_kind(d, domain);
    let shape = background_shape(
        config,
        building,
        kind,
        base_angle,
        count,
        index,
        [
            e.unit(),
            e.skip(1).unit(),
            e.skip(2).unit(),
            e.skip(3).unit(),
            e.skip(4).unit(),
            e.skip(5).unit(),
        ],
    );
    let (material, after) = crate::sample_shell::palette_material(e.skip(6), walls);
    (
        BackgroundPlacement {
            kind,
            angle: shape.angle,
            distance: shape.distance,
            size_m: shape.size_m,
            yaw_degrees: shape.yaw_degrees,
            material,
        },
        after,
    )
}

fn sample_background(
    d: Draws,
    config: BackgroundBuildingSamplingConfig,
    walls: &Vec<MaterialChoice>,
    building: SampledBuilding,
    domain: SceneDomain,
    base_angle: Single,
    count: u32,
    index: u32,
) -> (r: (BackgroundPlacement, Draws))
    requires
        walls@.len() <= u32::MAX,
        crate::choice::total_weight(crate::choice::material_weights(walls@)) > 0,
    ensures
        r == background_at(d, config, walls@, building, domain, base_angle, count, index),
{
    let kind = sample_background_kind(d, domain);
    let e = kind.1;
    let w = e.words();
    let shape = background_shape(
        config,
        building,
        kind.0,
        base_angle,
        count,
        index,
        [
            unit_of(w[0]),
            unit_of(w[1]),
            unit_of(w[2]),
            unit_of(w[3]),
            unit_of(w[4]),
            unit_of(w[5]),
        ],
    );
    let walled = resolved_material(e.skip(6), walls);
    (
        BackgroundPlacement {
            kind: kind.0,
            angle: shape.angle,
            distance: shape.distance,
            size_m: shape.size_m,
            yaw_degrees: shape.yaw_degrees,
            material: walled.0,
        },
        walled.1,
    )
}

/// The first `n` background buildings out of `count`, and the place after them.
pub open spec fn first_backgrounds(
    d: Draws,
    config: BackgroundBuildingSamplingConfig,
    walls: Seq<MaterialChoice>,
    building: SampledBuilding,
    domain: SceneDomain,
    count: u32,
    n: nat,
) -> (Seq<BackgroundPlacement>, Draws)
    decreases n,
{
    if n == 0 {
        (Seq::empty(), d.skip(1))
    } else {
        let (before, e) = first_backgrounds(
            d,
            config,
            walls,
            building,
            domain,
            count,
            (n - 1) as nat,
        );
        let base_angle = d.unit().times(tau());
        let (next, after) = background_at(
            e,
            config,
            walls,
            building,
            domain,
            base_angle,
            count,
            (n - 1) as u32,
        );
        (before.push(next), after)
    }
}

/// The background buildings of a seed in a domain.
pub open spec fn backgrounds_of(
    seed: u64,
    config: BackgroundBuildingSamplingConfig,
    walls: Seq<MaterialChoice>,
    building: SampledBuilding,
    domain: SceneDomainProfile,
) -> Seq<BackgroundPlacement> {
    let (count, d) = Draws::of(seed, "background-buildings").counted(
        intersect_u32_ranges(config.count, domain.background_buildings),
    );
    first_backgrounds(d, config, walls, building, domain.domain, count, count as nat).0
}

/// Samples the background buildings of a site, each with the direction in which it stands.
pub fn sample_background_buildings(
    seed: u64,
    config: BackgroundBuildingSamplingConfig,
    walls: &Vec<MaterialChoice>,
    building: SampledBuilding,
    domain: SceneDomainProfile,
) -> (r: Vec<BackgroundPlacement>)
    requires
        walls@.len() <= u32::MAX,
        crate::choice::total_weight(crate::choice::material_weights(walls@)) > 0,
        intersect_u32_ranges(config.count, domain.background_buildings).is_valid(),
    ensures
        r@ == backgrounds_of(seed, config, walls@, building, domain),
{
    let counted = Draws::of(seed, "background-buildings").counted(
        intersect_u32_ranges(config.count, domain.background_buildings),
    );
    let count: u32 = counted.0;
    let d = counted.1;
    let base_angle = d.unit().times(tau());
    let mut place = d.skip(1);
    let mut r: Vec<BackgroundPlacement> = Vec::new();
    let mut index: u32 = 0;
    while index < count
        invariant
            walls@.len() <= u32::MAX,
            crate::choice::total_weight(crate::choice::material_weights(walls@)) > 0,
            index <= count,
            base_angle == d.unit().times(tau()),
            (r@, place) == first_backgrounds(
                d,
                config,
                walls@,
                building,
                domain.domain,
                count,
                index as nat,
            ),
        decreases count - index,
    {
        let next = sample_background(
            place,
            config,
            walls,
            building,
            domain.domain,
            base_angle,
            count,
            index,
        );
        r.push(next.0);
        place = next.1;
        index = index + 1;
    }
    r
}

/// A plant whose place still is an angle and a distance.
#[derive(Clone, Copy, Debug, PartialEq, Eq, Structural)]
pub struct VegetationPlacement {
    /// Plant family.
    pub kind: VegetationKind,
    /// Direction from the origin, in radians.
    pub angle: Single,
    /// Distance from the origin in metres.
    pub distance: Single,
    /// Height in metres.
    pub height_m: Single,
    /// Crown radius in metres.
    pub canopy_radius_m: Single,
    /// World-Y rotation in degrees.
    pub yaw_degrees: Single,
    /// Signed colour variation in `[-1, 1]`.
    pub seasonal_variation: Single,
}

impl VegetationPlacement {
    /// The plant at its place, once the turn of its angle is known.
    pub open spec fn spec_placed(self, turn: Turn) -> SampledVegetation {
        SampledVegetation {
            kind: self.kind,
            position: ground_point(turn, self.distance),
            height_m: self.height_m,
            canopy_radius_m: self.canopy_radius_m,
            yaw_degrees: self.yaw_degrees,
            seasonal_variation: self.seasonal_variation,
        }
    }

    /// The plant at its place, once the turn of its angle is known.
    #[verifier::when_used_as_spec(spec_placed)]
    pub fn placed(self, turn: Turn) -> (r: SampledVegetation)
        ensures
            r == self.spec_placed(turn),
    {
        SampledVegetation {
            kind: self.kind,
            position: ground_point(turn, self.distance),
            height_m: self.height_m,
            canopy_radius_m: self.canopy_radius_m,
            yaw_degrees: self.yaw_degrees,
            seasonal_variation: self.seasonal_variation,
        }
    }
}

/// The heights that a plant of a kind can have.
pub open spec fn spec_height_range(
    config: VegetationSamplingConfig,
    kind: VegetationKind,
) -> FloatRange {
    if kind == VegetationKind::Shrub {
        config.shrub_height_m
    } else {
        config.tree_height_m
    }
}

/// The heights that a plant of a kind can have.
#[verifier::when_used_as_spec(spec_height_range)]
pub fn height_range(config: VegetationSamplingConfig, kind: VegetationKind) -> (r: FloatRange)
    ensures
        r == spec_height_range(config, kind),
{
    if kind == VegetationKind::Shrub {
        config.shrub_height_m
    } else {
        config.tree_height_m
    }
}

/// The plant that seven fractions and a coin give.
pub open spec fn spec_plant_from(
    config: VegetationSamplingConfig,
    building: SampledBuilding,
    kind: VegetationKind,
    base_angle: Single,
    count: u32,
    index: u32,
    side: Single,
    u: [Single; 7],
) -> VegetationPlacement {
    let height = height_range(config, kind).at(u[0]);
    VegetationPlacement {
        kind,
        angle: spread_angle(base_angle, count, index, Single::ratio(72, 100), u[1]),
        distance: footprint_radius(building).plus(config.building_setback_m.at(u[2])).plus(
            config.site_distance_m.at(u[3]),
        ),
        height_m: height,
        canopy_radius_m: height.times(config.canopy_radius_fraction.at(u[4])),
        yaw_degrees: u[5].times(Single::ratio(360, 1)),
        seasonal_variation: side.times(u[6]),
    }
}

/// The plant that seven fractions and a coin give.
#[verifier::when_used_as_spec(spec_plant_from)]
pub fn plant_from(
    config: VegetationSamplingConfig,
    building: SampledBuilding,
    kind: VegetationKind,
    base_angle: Single,
    count: u32,
    index: u32,
    side: Single,
    u: [Single; 7],
) -> (r: VegetationPlacement)
    ensures
        r == spec_plant_from(config, building, kind, base_angle, count, index, side, u),
{
    let height = height_range(config, kind).at(u[0]);
    VegetationPlacement {
        kind,
        angle: spread_angle(base_angle, count, index, Single::ratio(72, 100), u[1]),
        distance: footprint_radius(building).plus(config.building_setback_m.at(u[2])).plus(
            config.site_distance_m.at(u[3]),
        ),
        height_m: height,
        canopy_radius_m: height.times(config.canopy_radius_fraction.at(u[4])),
        yaw_degrees: u[5].times(Single::ratio(360, 1)),
        seasonal_variation: side.times(u[6]),
    }
}

/// Samples the plant with an index out of `count`, and gives the place after it.
pub open spec fn spec_sample_plant(
    d: Draws,
    config: VegetationSamplingConfig,
    building: SampledBuilding,
    base_angle: Single,
    count: u32,
    index: u32,
) -> (VegetationPlacement, Draws) {
    let kind = sample_vegetation_kind(d, config);
    let e = kind.1;
    (
        plant_from(
            config,
            building,
            kind.0,
            base_angle,
            count,
            index,
            e.skip(6).sign(),
            [
                e.unit(),
                e.skip(1).unit(),
                e.skip(2).unit(),
                e.skip(3).unit(),
                e.skip(4).unit(),
                e.skip(5).unit(),
                e.skip(7).unit(),
            ],
        ),
        e.skip(8),
    )
}

/// Samples the plant with an index out of `count`, and gives the place after it.
#[verifier::when_used_as_spec(spec_sample_plant)]
pub fn sample_plant(
    d: Draws,
    config: VegetationSamplingConfig,
    building: SampledBuilding,
    base_angle: Single,
    count: u32,
    index: u32,
) -> (r: (VegetationPlacement, Draws))
    requires
        crate::choice::total_weight(crate::choice::vegetation_kind_weights(config)) > 0,
    ensures
        r == spec_sample_plant(d, config, building, base_angle, count, index),
{
    let kind = sample_vegetation_kind(d, config);
    let e = kind.1;
    let w = e.words();
    (
        plant_from(
            config,
            building,
            kind.0,
            base_angle,
            count,
            index,
            sign_of(coin_of(w[6])),
            [
                unit_of(w[0]),
                unit_of(w[1]),
                unit_of(w[2]),
                unit_of(w[3]),
                unit_of(w[4]),
                unit_of(w[5]),
                unit_of(w[7]),
            ],
        ),
        e.skip(8),
    )
}

/// The first `n` plants out of `count`, and the place after them.
pub open spec fn first_plants(
    d: Draws,
    config: VegetationSamplingConfig,
    building: SampledBuilding,
    count: u32,
    n: nat,
) -> (Seq<VegetationPlacement>, Draws)
    decreases n,
{
    if n == 0 {
        (Seq::empty(), d.skip(1))
    } else {
        let (before, e) = first_plants(d, config, building, count, (n - 1) as nat);
        let (next, after) = sample_plant(
            e,
            config,
            building,
            d.unit().times(tau()),
            count,
            (n - 1) as u32,
        );
        (before.push(next), after)
    }
}

/// The plants of a seed in a domain.
pub open spec fn plants_of(
    seed: u64,
    config: VegetationSamplingConfig,
    building: SampledBuilding,
    domain: SceneDomainProfile,
) -> Seq<VegetationPlacement> {
    let (count, d) = Draws::of(seed, "vegetation").counted(
        intersect_u32_ranges(config.count, domain.vegetation),
    );
    first_plants(d, config, building, count, count as nat).0
}

/// Samples the plants of a site, each with the direction in which it stands.
pub fn sample_vegetation(
    seed: u64,
    config: VegetationSamplingConfig,
    building: SampledBuilding,
    domain: SceneDomainProfile,
) -> (r: Vec<VegetationPlacement>)
    requires
        crate::choice::total_weight(crate::choice::vegetation_kind_weights(config)) > 0,
        intersect_u32_ranges(config.count, domain.vegetation).is_valid(),
    ensures
        r@ == plants_of(seed, config, building, domain),
{
    let counted = Draws::of(seed, "vegetation").counted(
        intersect_u32_ranges(config.count, domain.vegetation),
    );
    let count: u32 = counted.0;
    let d = counted.1;
    let base_angle = d.unit().times(tau());
    let mut place = d.skip(1);
    let mut r: Vec<VegetationPlacement> = Vec::new();
    let mut index: u32 = 0;
    while index < count
        invariant
            crate::choice::total_weight(crate::choice::vegetation_kind_weights(config)) > 0,
            index <= count,
            base_angle == d.unit().times(tau()),
            (r@, place) == first_plants(d, config, building, count, index as nat),
        decreases count - index,
    {
        let next = sample_plant(place, config, building, base_angle, count, index);
        r.push(next.0);
        place = next.1;
        index = index + 1;
    }
    r
}

/// Whether every pole of a domain has a light.
pub open spec fn spec_always_lit(domain: SceneDomain) -> bool {
    domain == SceneDomain::City || domain == SceneDomain::Urban
}

/// Whether every pole of a domain has a light.
#[verifier::when_used_as_spec(spec_always_lit)]
pub fn always_lit(domain: SceneDomain) -> (r: bool)
    ensures
        r == spec_always_lit(domain),
{
    domain == SceneDomain::City || domain == SceneDomain::Urban
}

/// How far along a row an object with an index out of `count` stands.
pub open spec fn spec_row_progress(index: u32, count: u32) -> Single {
    if count <= 1 {
        Single::ratio(5, 10)
    } else {
        Single::from_u32(index).over(Single::from_u32((count - 1) as u32))
    }
}

/// How far along a row an object with an index out of `count` stands.
#[verifier::when_used_as_spec(spec_row_progress)]
pub fn row_progress(index: u32, count: u32) -> (r: Single)
    ensures
        r == spec_row_progress(index, count),
{
    if count <= 1 {
        Single::ratio(5, 10)
    } else {
        Single::from_u32(index).over(Single::from_u32((count - 1) as u32))
    }
}

/// The row of utility poles along a road.
#[derive(Clone, Copy, Debug, PartialEq, Eq, Structural)]
pub struct PoleRow {
    /// Number of poles.
    pub count: u32,
    /// Length of the row in metres.
    pub span: Single,
    /// Where the row stands along world Z.
    pub z: Single,
}

/// The pole with an index that two fractions give.
pub open spec fn spec_pole_from(
    row: PoleRow,
    domain: SceneDomain,
    index: u32,
    u: [Single; 2],
) -> SampledUtilityPole {
    SampledUtilityPole {
        position: Vec3::new(
            row_progress(index, row.count).minus(Single::ratio(5, 10)).times(row.span),
            Single::zero(),
            row.z,
        ),
        height_m: FloatRange::decimal(52, 108, 10).at(u[0]),
        has_light: always_lit(domain) || u[1].less(Single::ratio(42, 100)),
    }
}

/// The pole with an index that two fractions give.
#[verifier::when_used_as_spec(spec_pole_from)]
pub fn pole_from(
    row: PoleRow,
    domain: SceneDomain,
    index: u32,
    u: [Single; 2],
) -> (r: SampledUtilityPole)
    ensures
        r == spec_pole_from(row, domain, index, u),
{
    SampledUtilityPole {
        position: Vec3::new(
            row_progress(index, row.count).minus(Single::ratio(5, 10)).times(row.span),
            Single::zero(),
            row.z,
        ),
        height_m: FloatRange::decimal(52, 108, 10).at(u[0]),
        has_light: always_lit(domain) || u[1].less(Single::ratio(42, 100)),
    }
}

/// The place after a pole: one whose light is certain draws nothing for it.
pub open spec fn spec_after_pole(d: Draws, domain: SceneDomain) -> Draws {
    if always_lit(domain) {
        d.skip(1)
    } else {
        d.skip(2)
    }
}

/// The place after a pole: one whose light is certain draws nothing for it.
#[verifier::when_used_as_spec(spec_after_pole)]
pub fn after_pole(d: Draws, domain: SceneDomain) -> (r: Draws)
    ensures
        r == spec_after_pole(d, domain),
{
    if always_lit(domain) {
        d.skip(1)
    } else {
        d.skip(2)
    }
}

/// The first `n` poles of a row, and the place after them.
pub open spec fn first_poles(d: Draws, row: PoleRow, domain: SceneDomain, n: nat) -> (
    Seq<SampledUtilityPole>,
    Draws,
)
    decreases n,
{
    if n == 0 {
        (Seq::empty(), d)
    } else {
        let (before, e) = first_poles(d, row, domain, (n - 1) as nat);
        (
            before.push(
                pole_from(row, domain, (n - 1) as u32, [e.unit(), e.skip(1).unit()]),
            ),
            after_pole(e, domain),
        )
    }
}

fn sample_poles(d: Draws, row: PoleRow, domain: SceneDomain) -> (r: (
    Vec<SampledUtilityPole>,
    Draws,
))
    ensures
        (r.0@, r.1) == first_poles(d, row, domain, row.count as nat),
{
    let mut place = d;
    let mut poles: Vec<SampledUtilityPole> = Vec::new();
    let mut index: u32 = 0;
    while index < row.count
        invariant
            index <= row.count,
            (poles@, place) == first_poles(d, row, domain, index as nat),
        decreases row.count - index,
    {
        let w = place.words();
        poles.push(pole_from(row, domain, index, [unit_of(w[0]), unit_of(w[1])]));
        place = after_pole(place, domain);
        index = index + 1;
    }
    (poles, place)
}

/// Whether a line hangs in the gap after a pole.
pub open spec fn spec_line_hangs(d: Draws, probability: Single) -> bool {
    d.unit().less(probability)
}

/// Whether a line hangs in the gap after a pole.
#[verifier::when_used_as_spec(spec_line_hangs)]
pub fn line_hangs(d: Draws, probability: Single) -> (r: bool)
    ensures
        r == spec_line_hangs(d, probability),
{
    d.unit().less(probability)
}

/// The lines in the first `n` gaps of a row, and the place after them.
pub open spec fn first_lines(d: Draws, probability: Single, n: nat) -> (
    Seq<SampledUtilityLine>,
    Draws,
)
    decreases n,
{
    if n == 0 {
        (Seq::empty(), d)
    } else {
        let (before, e) = first_lines(d, probability, (n - 1) as nat);
        if line_hangs(e, probability) {
            (
                before.push(
                    SampledUtilityLine {
                        start_pole: (n - 1) as u16,
                        end_pole: n as u16,
                        sag_m: FloatRange::decimal(22, 115, 100).at(e.skip(1).unit()),
                    },
                ),
                e.skip(2),
            )
        } else {
            (before, e.skip(1))
        }
    }
}

fn sample_lines(d: Draws, probability: Single, gaps: u32) -> (r: (
    Vec<SampledUtilityLine>,
    Draws,
))
    requires
        gaps < 65_536,
    ensures
        (r.0@, r.1) == first_lines(d, probability, gaps as nat),
{
    let mut place = d;
    let mut lines: Vec<SampledUtilityLine> = Vec::new();
    let mut index: u32 = 0;
    while index < gaps
        invariant
            gaps < 65_536,
            index <= gaps,
            (lines@, place) == first_lines(d, probability, index as nat),
        decreases gaps - index,
    {
        if line_hangs(place, probability) {
            lines.push(
                SampledUtilityLine {
                    start_pole: index as u16,
                    end_pole: (index + 1) as u16,
                    sag_m: FloatRange::decimal(22, 115, 100).at(place.skip(1).unit()),
                },
            );
            place = place.skip(2);
        } else {
            place = place.skip(1);
        }
        index = index + 1;
    }
    (lines, place)
}

/// Every line hangs between two neighbouring poles of the row.
pub proof fn lines_join_neighbours(d: Draws, probability: Single, n: nat, i: int)
    requires
        n < 65_536,
        0 <= i < first_lines(d, probability, n).0.len(),
    ensures
        first_lines(d, probability, n).0[i].end_pole == first_lines(
            d,
            probability,
            n,
        ).0[i].start_pole + 1,
        first_lines(d, probability, n).0[i].end_pole <= n,
    decreases n,
{
    let before = first_lines(d, probability, (n - 1) as nat);
    if i < before.0.len() {
        lines_join_neighbours(d, probability, (n - 1) as nat, i);
    }
}

/// Road and parking of a site.
#[derive(Clone, Copy, Debug, PartialEq, Eq, Structural)]
pub struct Pavement {
    /// Where the parking area lies along world Z.
    pub parking_center_z: Single,
    /// Where the road lies along world Z.
    pub road_center_z: Single,
    /// Width of one lane.
    pub lane_width: Single,
}

/// Where parking and road lie in front of a building.
pub open spec fn spec_pavement_from(
    building: SampledBuilding,
    road_lanes: u32,
    fraction: Single,
) -> Pavement {
    let lane_width = FloatRange::decimal(30, 37, 10).at(fraction);
    let parking_center_z = building.footprint_depth_m.times(Single::ratio(5, 10)).plus(
        Single::ratio(9, 1),
    ).negated();
    let lanes = Single::from_u32(road_lanes);
    let road_center_z = parking_center_z.minus(Single::ratio(11, 1)).minus(
        lanes.times(lane_width).times(Single::ratio(5, 10)),
    );
    Pavement { parking_center_z, road_center_z, lane_width }
}

/// Where parking and road lie in front of a building.
#[verifier::when_used_as_spec(spec_pavement_from)]
pub fn pavement_from(
    building: SampledBuilding,
    road_lanes: u32,
    fraction: Single,
) -> (r: Pavement)
    ensures
        r == spec_pavement_from(building, road_lanes, fraction),
{
    let lane_width = FloatRange::decimal(30, 37, 10).at(fraction);
    let parking_center_z = building.footprint_depth_m.times(Single::ratio(5, 10)).plus(
        Single::ratio(9, 1),
    ).negated();
    let lanes = Single::from_u32(road_lanes);
    let road_center_z = parking_center_z.minus(Single::ratio(11, 1)).minus(
        lanes.times(lane_width).times(Single::ratio(5, 10)),
    );
    Pavement { parking_center_z, road_center_z, lane_width }
}

/// The row of poles beyond a road.
pub open spec fn spec_pole_row(
    building: SampledBuilding,
    pavement: Pavement,
    road_lanes: u32,
    count: u32,
) -> PoleRow {
    let lanes = Single::from_u32(road_lanes);
    PoleRow {
        count,
        span: building.ground_half_extent_m.times(Single::ratio(145, 100)).min(
            Single::ratio(72, 1),
        ),
        z: pavement.road_center_z.minus(
            lanes.times(pavement.lane_width).times(Single::ratio(5, 10)),
        ).minus(Single::ratio(12, 10)),
    }
}

/// The row of poles beyond a road.
#[verifier::when_used_as_spec(spec_pole_row)]
pub fn pole_row(
    building: SampledBuilding,
    pavement: Pavement,
    road_lanes: u32,
    count: u32,
) -> (r: PoleRow)
    ensures
        r == spec_pole_row(building, pavement, road_lanes, count),
{
    let lanes = Single::from_u32(road_lanes);
    PoleRow {
        count,
        span: building.ground_half_extent_m.times(Single::ratio(145, 100)).min(
            Single::ratio(72, 1),
        ),
        z: pavement.road_center_z.minus(
            lanes.times(pavement.lane_width).times(Single::ratio(5, 10)),
        ).minus(Single::ratio(12, 10)),
    }
}

/// How many gaps a row of poles has.
pub open spec fn spec_gaps_of(count: u32) -> u32 {
    if count == 0 {
        0
    } else {
        (count - 1) as u32
    }
}

/// How many gaps a row of poles has.
#[verifier::when_used_as_spec(spec_gaps_of)]
pub fn gaps_of(count: u32) -> (r: u32)
    ensures
        r == spec_gaps_of(count),
{
    if count == 0 {
        0
    } else {
        (count - 1) as u32
    }
}

/// The infrastructure with given numbers and rows.
pub open spec fn infrastructure_is(
    r: SampledSiteInfrastructure,
    domain: SceneDomainProfile,
    parking_bays: u32,
    road_lanes: u32,
    pavement: Pavement,
    poles: Seq<SampledUtilityPole>,
    lines: Seq<SampledUtilityLine>,
    heads: bool,
    u: [Single; 3],
) -> bool {
    &&& r.domain == domain.domain
    &&& r.parking_bays == parking_bays
    &&& r.parking_center == Vec3::new(Single::zero(), Single::zero(), pavement.parking_center_z)
    &&& r.parking_bay_size_m == bay_size(u[0], u[1])
    &&& r.parking_yaw_degrees == parking_yaw(heads)
    &&& r.road_kind == domain.road_kind
    &&& r.road_lanes == road_lanes
    &&& r.lane_width_m == pavement.lane_width
    &&& r.road_center_z_m == pavement.road_center_z
    &&& r.raised_curb == u[2].less(domain.curb_probability)
    &&& r.utility_poles@ == poles
    &&& r.utility_lines@ == lines
}

/// The size of a parking bay that two fractions give.
pub open spec fn spec_bay_size(u: Single, v: Single) -> Vec2 {
    Vec2::new(FloatRange::decimal(235, 275, 100).at(u), FloatRange::decimal(47, 56, 10).at(v))
}

/// The size of a parking bay that two fractions give.
#[verifier::when_used_as_spec(spec_bay_size)]
pub fn bay_size(u: Single, v: Single) -> (r: Vec2)
    ensures
        r == spec_bay_size(u, v),
{
    Vec2::new(FloatRange::decimal(235, 275, 100).at(u), FloatRange::decimal(47, 56, 10).at(v))
}

/// Parking bays lie along or across the road.
pub open spec fn spec_parking_yaw(heads: bool) -> Single {
    if heads {
        Single::zero()
    } else {
        Single::ratio(90, 1)
    }
}

/// Parking bays lie along or across the road.
#[verifier::when_used_as_spec(spec_parking_yaw)]
pub fn parking_yaw(heads: bool) -> (r: Single)
    ensures
        r == spec_parking_yaw(heads),
{
    if heads {
        Single::zero()
    } else {
        Single::ratio(90, 1)
    }
}

/// The infrastructure of a seed in a domain.
pub open spec fn is_infrastructure_of(
    r: SampledSiteInfrastructure,
    seed: u64,
    building: SampledBuilding,
    domain: SceneDomainProfile,
) -> bool {
    let (bays, d1) = Draws::of(seed, "site-infrastructure").counted(domain.parking_bays);
    let (lanes, d2) = d1.counted(domain.road_lanes);
    let pavement = pavement_from(building, lanes, d2.unit());
    let (count, d3) = d2.skip(1).counted(domain.utility_poles);
    let row = pole_row(building, pavement, lanes, count);
    let (poles, d4) = first_poles(d3, row, domain.domain, count as nat);
    let (lines, d5) = first_lines(d4, domain.overhead_line_probability, gaps_of(count) as nat);
    infrastructure_is(
        r,
        domain,
        bays,
        lanes,
        pavement,
        poles,
        lines,
        d5.skip(2).coin(),
        [d5.unit(), d5.skip(1).unit(), d5.skip(3).unit()],
    )
}

/// Samples parking, road, poles and lines of a site.
pub fn sample_infrastructure(
    seed: u64,
    building: SampledBuilding,
    domain: SceneDomainProfile,
) -> (r:
    SampledSiteInfrastructure)
    requires
        domain.parking_bays.is_valid(),
        domain.road_lanes.is_valid(),
        domain.utility_poles.is_valid(),
        domain.utility_poles.max <= 65_535,
    ensures
        is_infrastructure_of(r, seed, building, domain),
{
    let bays = Draws::of(seed, "site-infrastructure").counted(domain.parking_bays);
    let lanes = bays.1.counted(domain.road_lanes);
    let pavement = pavement_from(building, lanes.0, lanes.1.unit());
    let counted = lanes.1.skip(1).counted(domain.utility_poles);
    let row = pole_row(building, pavement, lanes.0, counted.0);
    let poles = sample_poles(counted.1, row, domain.domain);
    let lines = sample_lines(poles.1, domain.overhead_line_probability, gaps_of(counted.0));
    let d = lines.1;
    let w = d.words();
    SampledSiteInfrastructure {
        domain: domain.domain,
        parking_bays: bays.0,
        parking_center: Vec3::new(Single::zero(), Single::zero(), pavement.parking_center_z),
        parking_bay_size_m: bay_size(unit_of(w[0]), unit_of(w[1])),
        parking_yaw_degrees: parking_yaw(coin_of(w[2])),
        road_kind: domain.road_kind,
        road_lanes: lanes.0,
        lane_width_m: pavement.lane_width,
        road_center_z_m: pavement.road_center_z,
        raised_curb: unit_of(w[3]).less(domain.curb_probability),
        utility_poles: poles.0,
        utility_lines: lines.0,
    }
}

} // verus!
