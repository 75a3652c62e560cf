//! What the assembly of a scene needs of sines, cosines and powers.

use crate::assembly::{
    frond_yaw, weathered_channel, BackgroundLook, OccluderTurns, SceneLooks, TreeTurns,
};
use crate::geometry::Turn;
use crate::given::{answer_of, answers, ask};
use crate::mips::linear_base;
use crate::plan::{SampledLighting, SampledMaterial, SampledScene};
use crate::sample_camera::radians;
use crate::scene::{
    BackgroundBuilding, SceneDescription, SceneModel, SceneOccluder, SignDescription, TreeInstance,
};
use crate::shapes::{cylinder_angle, ring_angle, segment_angle, RoundTurns};
use crate::single::Single;
use crate::view::{faded_channel, RaisedColors, SunTurns};
use vstd::prelude::*;

verus! {

/// Half of an angle.
pub open spec fn spec_half(angle: Single) -> Single {
    angle.times(Single::ratio(5, 10))
}

/// Half of an angle.
#[verifier::when_used_as_spec(spec_half)]
pub fn half(angle: Single) -> (r: Single)
    ensures
        r == spec_half(angle),
{
    angle.times(Single::ratio(5, 10))
}

/// Half of the direction of a frond, the other way.
pub open spec fn spec_frond_back(yaw: Single, k: u32) -> Single {
    half(frond_yaw(yaw, k).negated())
}

/// Half of the direction of a frond, the other way.
#[verifier::when_used_as_spec(spec_frond_back)]
pub fn frond_back(yaw: Single, k: u32) -> (r: Single)
    ensures
        r == spec_frond_back(yaw, k),
{
    half(frond_yaw(yaw, k).negated())
}

/// The turns of round shapes.
pub open spec fn round_turns(turn: spec_fn(Single) -> Turn) -> RoundTurns {
    RoundTurns {
        cylinder: [
            turn(cylinder_angle(0)),
            turn(cylinder_angle(1)),
            turn(cylinder_angle(2)),
            turn(cylinder_angle(3)),
            turn(cylinder_angle(4)),
            turn(cylinder_angle(5)),
            turn(cylinder_angle(6)),
            turn(cylinder_angle(7)),
            turn(cylinder_angle(8)),
        ],
        rings: [
            turn(ring_angle(0)),
            turn(ring_angle(1)),
            turn(ring_angle(2)),
            turn(ring_angle(3)),
            turn(ring_angle(4)),
            turn(ring_angle(5)),
            turn(ring_angle(6)),
            turn(ring_angle(7)),
        ],
        segments: [
            turn(segment_angle(0)),
            turn(segment_angle(1)),
            turn(segment_angle(2)),
            turn(segment_angle(3)),
            turn(segment_angle(4)),
            turn(segment_angle(5)),
            turn(segment_angle(6)),
            turn(segment_angle(7)),
            turn(segment_angle(8)),
            turn(segment_angle(9)),
            turn(segment_angle(10)),
            turn(segment_angle(11)),
            turn(segment_angle(12)),
        ],
    }
}

/// Finds the turns of round shapes.
pub fn find_round_turns<T: Fn(Single) -> Turn>(turn: &T) -> (r: RoundTurns)
    requires
        answers(*turn),
    ensures
        r == round_turns(answer_of(*turn)),
{
    RoundTurns {
        cylinder: [
            ask(turn, cylinder_angle(0)),
            ask(turn, cylinder_angle(1)),
            ask(turn, cylinder_angle(2)),
            ask(turn, cylinder_angle(3)),
            ask(turn, cylinder_angle(4)),
            ask(turn, cylinder_angle(5)),
            ask(turn, cylinder_angle(6)),
            ask(turn, cylinder_angle(7)),
            ask(turn, cylinder_angle(8)),
        ],
        rings: [
            ask(turn, ring_angle(0)),
            ask(turn, ring_angle(1)),
            ask(turn, ring_angle(2)),
            ask(turn, ring_angle(3)),
            ask(turn, ring_angle(4)),
            ask(turn, ring_angle(5)),
            ask(turn, ring_angle(6)),
            ask(turn, ring_angle(7)),
        ],
        segments: [
            ask(turn, segment_angle(0)),
            ask(turn, segment_angle(1)),
            ask(turn, segment_angle(2)),
            ask(turn, segment_angle(3)),
            ask(turn, segment_angle(4)),
            ask(turn, segment_angle(5)),
            ask(turn, segment_angle(6)),
            ask(turn, segment_angle(7)),
            ask(turn, segment_angle(8)),
            ask(turn, segment_angle(9)),
            ask(turn, segment_angle(10)),
            ask(turn, segment_angle(11)),
            ask(turn, segment_angle(12)),
        ],
    }
}

/// The turns of a plant.
pub open spec fn tree_turns(yaw: Single, turn: spec_fn(Single) -> Turn) -> TreeTurns {
    TreeTurns {
        turn: turn(yaw),
        fronds: [
            turn(frond_yaw(yaw, 0)),
            turn(frond_yaw(yaw, 1)),
            turn(frond_yaw(yaw, 2)),
            turn(frond_yaw(yaw, 3)),
            turn(frond_yaw(yaw, 4)),
            turn(frond_yaw(yaw, 5)),
        ],
        frond_halves: [
            turn(frond_back(yaw, 0)),
            turn(frond_back(yaw, 1)),
            turn(frond_back(yaw, 2)),
            turn(frond_back(yaw, 3)),
            turn(frond_back(yaw, 4)),
            turn(frond_back(yaw, 5)),
        ],
    }
}

fn find_tree_turns<T: Fn(Single) -> Turn>(yaw: Single, turn: &T) -> (r: TreeTurns)
    requires
        answers(*turn),
    ensures
        r == tree_turns(yaw, answer_of(*turn)),
{
    TreeTurns {
        turn: ask(turn, yaw),
        fronds: [
            ask(turn, frond_yaw(yaw, 0)),
            ask(turn, frond_yaw(yaw, 1)),
            ask(turn, frond_yaw(yaw, 2)),
            ask(turn, frond_yaw(yaw, 3)),
            ask(turn, frond_yaw(yaw, 4)),
            ask(turn, frond_yaw(yaw, 5)),
        ],
        frond_halves: [
            ask(turn, frond_back(yaw, 0)),
            ask(turn, frond_back(yaw, 1)),
            ask(turn, frond_back(yaw, 2)),
            ask(turn, frond_back(yaw, 3)),
            ask(turn, frond_back(yaw, 4)),
            ask(turn, frond_back(yaw, 5)),
        ],
    }
}

/// The bases of three channels to the power.
pub open spec fn raised_channels(
    channels: [Single; 3],
    power: spec_fn(Single) -> Single,
) -> [Single; 3] {
    [
        power(linear_base(channels[0])),
        power(linear_base(channels[1])),
        power(linear_base(channels[2])),
    ]
}

fn raise_channels<P: Fn(Single) -> Single>(channels: [Single; 3], power: &P) -> (r: [Single; 3])
    requires
        answers(*power),
    ensures
        r == raised_channels(channels, answer_of(*power)),
{
    [
        ask(power, linear_base(channels[0])),
        ask(power, linear_base(channels[1])),
        ask(power, linear_base(channels[2])),
    ]
}

/// Three channels of a neighbour after weathering.
pub open spec fn spec_weathered_channels(
    channels: [Single; 3],
    weathering: Single,
) -> [Single; 3] {
    [
        weathered_channel(channels[0], weathering),
        weathered_channel(channels[1], weathering),
        weathered_channel(channels[2], weathering),
    ]
}

/// Three channels of a neighbour after weathering.
#[verifier::when_used_as_spec(spec_weathered_channels)]
pub fn weathered_channels(channels: [Single; 3], weathering: Single) -> (r: [Single; 3])
    ensures
        r == spec_weathered_channels(channels, weathering),
{
    [
        weathered_channel(channels[0], weathering),
        weathered_channel(channels[1], weathering),
        weathered_channel(channels[2], weathering),
    ]
}

/// The look of a neighbour.
pub open spec fn background_look(
    building: BackgroundBuilding,
    turn: spec_fn(Single) -> Turn,
    power: spec_fn(Single) -> Single,
) -> BackgroundLook {
    BackgroundLook {
        half: turn(half(building.yaw_radians)),
        raised: raised_channels(
            weathered_channels(building.base_color_srgb, building.weathering),
            power,
        ),
    }
}

/// The looks of neighbours.
pub open spec fn background_looks(
    buildings: Seq<BackgroundBuilding>,
    turn: spec_fn(Single) -> Turn,
    power: spec_fn(Single) -> Single,
) -> Seq<BackgroundLook> {
    Seq::new(buildings.len(), |i: int| background_look(buildings[i], turn, power))
}

fn find_background_looks<T: Fn(Single) -> Turn, P: Fn(Single) -> Single>(
    buildings: &Vec<BackgroundBuilding>,
    turn: &T,
    power: &P,
) -> (r: Vec<BackgroundLook>)
    requires
        answers(*turn),
        answers(*power),
    ensures
        r@ == background_looks(buildings@, answer_of(*turn), answer_of(*power)),
{
    let mut r: Vec<BackgroundLook> = Vec::new();
    let mut i: usize = 0;
    while i < buildings.len()
        invariant
            answers(*turn),
            answers(*power),
            i <= buildings@.len(),
            r@.len() == i,
            forall|j: int|
                0 <= j < i ==> #[trigger] r@[j] == background_look(
                    buildings@[j],
                    answer_of(*turn),
                    answer_of(*power),
                ),
        decreases buildings@.len() - i,
    {
        let building = buildings[i];
        r.push(
            BackgroundLook {
                half: ask(turn, half(building.yaw_radians)),
                raised: raise_channels(
                    weathered_channels(building.base_color_srgb, building.weathering),
                    power,
                ),
            },
        );
        i = i + 1;
    }
    assert(r@ =~= background_looks(buildings@, answer_of(*turn), answer_of(*power)));
    r
}

/// The turns of plants.
pub open spec fn all_tree_turns(
    trees: Seq<TreeInstance>,
    turn: spec_fn(Single) -> Turn,
) -> Seq<TreeTurns> {
    Seq::new(trees.len(), |i: int| tree_turns(trees[i].yaw_radians, turn))
}

fn find_all_tree_turns<T: Fn(Single) -> Turn>(
    trees: &Vec<TreeInstance>,
    turn: &T,
) -> (r: Vec<TreeTurns>)
    requires
        answers(*turn),
    ensures
        r@ == all_tree_turns(trees@, answer_of(*turn)),
{
    let mut r: Vec<TreeTurns> = Vec::new();
    let mut i: usize = 0;
    while i < trees.len()
        invariant
            answers(*turn),
            i <= trees@.len(),
            r@.len() == i,
            forall|j: int|
                0 <= j < i ==> #[trigger] r@[j] == tree_turns(
                    trees@[j].yaw_radians,
                    answer_of(*turn),
                ),
        decreases trees@.len() - i,
    {
        r.push(find_tree_turns(trees[i].yaw_radians, turn));
        i = i + 1;
    }
    assert(r@ =~= all_tree_turns(trees@, answer_of(*turn)));
    r
}

/// The turns of an object.
pub open spec fn occluder_turns(yaw: Single, turn: spec_fn(Single) -> Turn) -> OccluderTurns {
    OccluderTurns { half: turn(half(yaw)), turn: turn(yaw) }
}

/// The turns of objects.
pub open spec fn all_occluder_turns(
    occluders: Seq<SceneOccluder>,
    turn: spec_fn(Single) -> Turn,
) -> Seq<OccluderTurns> {
    Seq::new(occluders.len(), |i: int| occluder_turns(occluders[i].yaw_radians, turn))
}

fn find_all_occluder_turns<T: Fn(Single) -> Turn>(
    occluders: &Vec<SceneOccluder>,
    turn: &T,
) -> (r: Vec<OccluderTurns>)
    requires
        answers(*turn),
    ensures
        r@ == all_occluder_turns(occluders@, answer_of(*turn)),
{
    let mut r: Vec<OccluderTurns> = Vec::new();
    let mut i: usize = 0;
    while i < occluders.len()
        invariant
            answers(*turn),
            i <= occluders@.len(),
            r@.len() == i,
            forall|j: int|
                0 <= j < i ==> #[trigger] r@[j] == occluder_turns(
                    occluders@[j].yaw_radians,
                    answer_of(*turn),
                ),
        decreases occluders@.len() - i,
    {
        let yaw = occluders[i].yaw_radians;
        r.push(OccluderTurns { half: ask(turn, half(yaw)), turn: ask(turn, yaw) });
        i = i + 1;
    }
    assert(r@ =~= all_occluder_turns(occluders@, answer_of(*turn)));
    r
}

/// The turns by half of the yaws of signs.
pub open spec fn sign_turns(
    signs: Seq<SignDescription>,
    turn: spec_fn(Single) -> Turn,
) -> Seq<Turn> {
    Seq::new(signs.len(), |i: int| turn(half(signs[i].yaw_radians)))
}

fn find_sign_turns<T: Fn(Single) -> Turn>(
    signs: &Vec<SignDescription>,
    turn: &T,
) -> (r: Vec<Turn>)
    requires
        answers(*turn),
    ensures
        r@ == sign_turns(signs@, answer_of(*turn)),
{
    let mut r: Vec<Turn> = Vec::new();
    let mut i: usize = 0;
    while i < signs.len()
        invariant
            answers(*turn),
            i <= signs@.len(),
            r@.len() == i,
            forall|j: int|
                0 <= j < i ==> #[trigger] r@[j] == answer_of(*turn)(half(signs@[j].yaw_radians)),
        decreases signs@.len() - i,
    {
        r.push(ask(turn, half(signs[i].yaw_radians)));
        i = i + 1;
    }
    assert(r@ =~= sign_turns(signs@, answer_of(*turn)));
    r
}

impl SceneLooks {
    /// The turns and powers of a scene.
    pub open spec fn describe(
        &self,
        scene: SceneModel,
        turn: spec_fn(Single) -> Turn,
        power: spec_fn(Single) -> Single,
    ) -> bool {
        &&& self.round == round_turns(turn)
        &&& self.glazing_raised == raised_channels(scene.facade.glazing_color_srgb, power)
        &&& self.parking == turn(scene.site.parking_yaw_radians)
        &&& self.parking_half == turn(half(scene.site.parking_yaw_radians))
        &&& self.backgrounds@ == background_looks(scene.background_buildings, turn, power)
        &&& self.trees@ == all_tree_turns(scene.trees, turn)
        &&& self.occluders@ == all_occluder_turns(scene.occluders, turn)
        &&& self.signs@ == sign_turns(scene.signs, turn)
    }

    /// Finds the turns and powers of a scene, given functions for the cosine and sine of an
    /// angle and for the power 2.4.
    pub fn of<T: Fn(Single) -> Turn, P: Fn(Single) -> Single>(
        scene: &SceneDescription,
        turn: &T,
        power: &P,
    ) -> (r: SceneLooks)
        requires
            answers(*turn),
            answers(*power),
        ensures
            r.describe(scene@, answer_of(*turn), answer_of(*power)),
            r.cover(scene@),
    {
        SceneLooks {
            round: find_round_turns(turn),
            glazing_raised: raise_channels(scene.facade.glazing_color_srgb, power),
            parking: ask(turn, scene.site.parking_yaw_radians),
            parking_half: ask(turn, half(scene.site.parking_yaw_radians)),
            backgrounds: find_background_looks(&scene.background_buildings, turn, power),
            trees: find_all_tree_turns(&scene.trees, turn),
            occluders: find_all_occluder_turns(&scene.occluders, turn),
            signs: find_sign_turns(&scene.signs, turn),
        }
    }
}

impl SunTurns {
    /// The turns of the sun of a scene.
    pub open spec fn spec_of(lighting: SampledLighting, turn: spec_fn(Single) -> Turn) -> SunTurns {
        SunTurns {
            azimuth: turn(radians(lighting.sun_azimuth_degrees)),
            elevation: turn(radians(lighting.sun_elevation_degrees)),
        }
    }

    /// Finds the turns of the sun of a scene.
    pub fn of<T: Fn(Single) -> Turn>(lighting: SampledLighting, turn: &T) -> (r: SunTurns)
        requires
            answers(*turn),
        ensures
            r == Self::spec_of(lighting, answer_of(*turn)),
    {
        SunTurns {
            azimuth: ask(turn, radians(lighting.sun_azimuth_degrees)),
            elevation: ask(turn, radians(lighting.sun_elevation_degrees)),
        }
    }
}

/// Three channels of a sampled material after weathering.
pub open spec fn spec_faded_channels(material: &SampledMaterial) -> [Single; 3] {
    [
        faded_channel(material.base_color_srgb[0], material.weathering),
        faded_channel(material.base_color_srgb[1], material.weathering),
        faded_channel(material.base_color_srgb[2], material.weathering),
    ]
}

/// Three channels of a sampled material after weathering.
#[verifier::when_used_as_spec(spec_faded_channels)]
pub fn faded_channels(material: &SampledMaterial) -> (r: [Single; 3])
    ensures
        r == spec_faded_channels(material),
{
    [
        faded_channel(material.base_color_srgb[0], material.weathering),
        faded_channel(material.base_color_srgb[1], material.weathering),
        faded_channel(material.base_color_srgb[2], material.weathering),
    ]
}

impl RaisedColors {
    /// The raised colours of a scene.
    pub open spec fn spec_of(
        scene: &SampledScene,
        power: spec_fn(Single) -> Single,
    ) -> RaisedColors {
        RaisedColors {
            roof: raised_channels(faded_channels(&scene.roof_material), power),
            wall: raised_channels(faded_channels(&scene.wall_material), power),
            ground: match scene.composition.ground_material {
                Some(material) => raised_channels(faded_channels(&material), power),
                None => [Single::zero(), Single::zero(), Single::zero()],
            },
        }
    }

    /// Finds the raised colours of a scene, given a function for the power 2.4.
    pub fn of<P: Fn(Single) -> Single>(scene: &SampledScene, power: &P) -> (r: RaisedColors)
        requires
            answers(*power),
        ensures
            r == Self::spec_of(scene, answer_of(*power)),
    {
        RaisedColors {
            roof: raise_channels(faded_channels(&scene.roof_material), power),
            wall: raise_channels(faded_channels(&scene.wall_material), power),
            ground: match &scene.composition.ground_material {
                Some(material) => raise_channels(faded_channels(material), power),
                None => [Single::zero(), Single::zero(), Single::zero()],
            },
        }
    }
}

} // verus!
