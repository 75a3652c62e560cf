//! The standard configuration meets its rules, part by part.

use crate::bounds::{literals_of_whole_numbers, ratios_stay_apart};
use crate::composition::{
    BackgroundBuildingSamplingConfig, BuildingExtensionSamplingConfig, CompositionSamplingConfig,
    DayPhase, DayPhaseSamplingConfig, SceneDomainSamplingConfig, SignageSamplingConfig,
    VegetationSamplingConfig, WeatherSamplingConfig,
};
use crate::config::{
    CameraSamplingConfig, GeneratorConfig, LightingSamplingConfig, MaterialChoice,
    MaterialSamplingConfig, OccluderKind, OccluderSamplingConfig, RoofSamplingConfig,
    SceneSamplingConfig,
};
use crate::report::kept;
use crate::single::Single;
use crate::types::FloatRange;
use vstd::prelude::*;

verus! {

broadcast use {crate::bounds::group_literals, crate::report::group_kept};

proof fn lemma_units()
    ensures
        Single::zero() == Single::ratio(0, 1),
        Single::one() == Single::ratio(1, 1),
{
    literals_of_whole_numbers(0, 1);
}

pub(crate) proof fn lemma_output(c: GeneratorConfig)
    requires
        c.is_standard(),
    ensures
        kept(crate::check_config::output_rules(c)),
{
}

pub(crate) proof fn lemma_shell()
    ensures
        kept(crate::check_config::shell_rules(SceneSamplingConfig::standard())),
{
    lemma_units();
}

pub(crate) proof fn lemma_roof(roof: RoofSamplingConfig)
    requires
        roof.is_standard(),
    ensures
        kept(crate::check_config::roof_rules(roof)),
{
    lemma_units();
}

pub(crate) proof fn lemma_camera()
    ensures
        kept(crate::check_config::camera_sampling_rules(CameraSamplingConfig::standard())),
{
    lemma_units();
    literals_of_whole_numbers(18, 100);
    literals_of_whole_numbers(1, 1);
    ratios_stay_apart(18, 100, 1, 1);
}

pub(crate) proof fn lemma_lighting()
    ensures
        kept(crate::check_config::lighting_rules(LightingSamplingConfig::standard())),
{
    lemma_units();
}

pub(crate) proof fn lemma_clutter(occluders: OccluderSamplingConfig)
    requires
        occluders.is_standard(),
    ensures
        kept(crate::check_config::clutter_rules(occluders)),
{
    lemma_units();
    assert(occluders.choices@[0].kind == OccluderKind::Vegetation && occluders.choices@[0].weight
        > 0);
}

proof fn lemma_extensions()
    ensures
        kept(
            crate::check_composition::extension_sampling_rules(
                BuildingExtensionSamplingConfig::standard(),
            ),
        ),
{
    lemma_units();
}

proof fn lemma_signage()
    ensures
        kept(
            crate::check_composition::signage_sampling_rules(SignageSamplingConfig::standard()),
        ),
{
    lemma_units();
}

proof fn lemma_backgrounds()
    ensures
        kept(
            crate::check_composition::background_rules(
                BackgroundBuildingSamplingConfig::standard(),
            ),
        ),
{
    lemma_units();
}

proof fn lemma_vegetation()
    ensures
        kept(crate::check_composition::vegetation_rules(VegetationSamplingConfig::standard())),
{
    lemma_units();
}

broadcast proof fn lemma_overlap(a: FloatRange, b: FloatRange)
    requires
        a.is_valid(),
        b.is_valid(),
        a.min.at_most(b.max),
        b.min.at_most(a.max),
    ensures
        #[trigger] a.intersection(b) is Some,
{
}

broadcast proof fn lemma_ranges_overlap(a: FloatRange, b: FloatRange)
    requires
        a.is_valid(),
        b.is_valid(),
        a.min.at_most(b.max),
        b.min.at_most(a.max),
    ensures
        #[trigger] crate::check_values::ranges_overlap(a, b),
{
}

proof fn lemma_profile(base: Seq<char>, roof: RoofSamplingConfig, i: int)
    requires
        roof.is_standard(),
        0 <= i < 5,
    ensures
        kept(
            crate::check_config::profile_rules(
                base,
                RoofSamplingConfig::standard_profiles()[i],
                roof,
                crate::check_config::feasible_aspect(SceneSamplingConfig::standard()),
            ),
        ),
{
    broadcast use lemma_overlap;

    lemma_units();
    crate::standard::lemma_aspects_overlap(RoofSamplingConfig::standard_profiles()[i]);
}

proof fn lemma_first_profiles(c: GeneratorConfig, n: nat)
    requires
        c.is_standard(),
        n <= 5,
    ensures
        kept(crate::check_config::first_profile_rules(c, n)),
    decreases n,
{
    if n > 0 {
        lemma_first_profiles(c, (n - 1) as nat);
        lemma_profile(
            crate::text::element("roof.profiles"@, n - 1, ""@),
            c.roof,
            n - 1,
        );
    }
}

pub(crate) proof fn lemma_profiles(c: GeneratorConfig)
    requires
        c.is_standard(),
    ensures
        kept(crate::check_config::profiles_rules(c)),
{
    assert(c.roof.profiles@[0].weight > 0);
    lemma_first_profiles(c, 5);
}

proof fn lemma_day_phase(base: Seq<char>, i: int)
    requires
        0 <= i < 3,
    ensures
        kept(
            crate::check_composition::day_phase_rules(
                base,
                DayPhaseSamplingConfig::standard_profiles()[i],
                LightingSamplingConfig::standard(),
            ),
        ),
{
    broadcast use lemma_ranges_overlap;

    lemma_units();
}

proof fn lemma_first_day_phases(n: nat)
    requires
        n <= 3,
    ensures
        kept(
            crate::check_composition::first_day_phase_rules(
                DayPhaseSamplingConfig::standard_profiles(),
                LightingSamplingConfig::standard(),
                n,
            ),
        ),
    decreases n,
{
    if n > 0 {
        lemma_first_day_phases((n - 1) as nat);
        lemma_day_phase(
            crate::text::element("composition.day_phase.profiles"@, n - 1, ""@),
            n - 1,
        );
    }
}

proof fn lemma_day_phases()
    ensures
        kept(
            crate::check_composition::day_phases_rules(
                DayPhaseSamplingConfig::standard_profiles(),
                LightingSamplingConfig::standard(),
            ),
        ),
{
    let profiles = DayPhaseSamplingConfig::standard_profiles();
    assert(profiles[0].weight > 0 && profiles[0].phase == DayPhase::Day);
    assert(profiles[2].weight > 0 && profiles[2].phase == DayPhase::Night);
    lemma_first_day_phases(3);
}

proof fn lemma_weather(base: Seq<char>, i: int)
    requires
        0 <= i < 5,
    ensures
        kept(
            crate::check_composition::weather_rules(
                base,
                WeatherSamplingConfig::standard_profiles()[i],
                LightingSamplingConfig::standard(),
            ),
        ),
{
    broadcast use lemma_ranges_overlap;

    lemma_units();
}

proof fn lemma_first_weathers(n: nat)
    requires
        n <= 5,
    ensures
        kept(
            crate::check_composition::first_weather_rules(
                WeatherSamplingConfig::standard_profiles(),
                LightingSamplingConfig::standard(),
                n,
            ),
        ),
    decreases n,
{
    if n > 0 {
        lemma_first_weathers((n - 1) as nat);
        lemma_weather(
            crate::text::element("composition.weather.profiles"@, n - 1, ""@),
            n - 1,
        );
    }
}

proof fn lemma_weathers()
    ensures
        kept(
            crate::check_composition::weathers_rules(
                WeatherSamplingConfig::standard_profiles(),
                LightingSamplingConfig::standard(),
            ),
        ),
{
    assert(WeatherSamplingConfig::standard_profiles()[0].weight > 0);
    lemma_first_weathers(5);
}

proof fn lemma_first_domains(n: nat)
    requires
        n <= 5,
    ensures
        kept(
            crate::check_composition::first_domain_rules(
                SceneDomainSamplingConfig::standard_profiles(),
                BackgroundBuildingSamplingConfig::standard(),
                VegetationSamplingConfig::standard(),
                n,
            ),
        ),
    decreases n,
{
    if n > 0 {
        lemma_first_domains((n - 1) as nat);
        lemma_units();
    }
}

proof fn lemma_domains()
    ensures
        kept(
            crate::check_composition::domains_rules(
                SceneDomainSamplingConfig::standard_profiles(),
                BackgroundBuildingSamplingConfig::standard(),
                VegetationSamplingConfig::standard(),
            ),
        ),
{
    assert(SceneDomainSamplingConfig::standard_profiles()[0].weight > 0);
    lemma_first_domains(5);
}

/// A palette whose first choices are sound.
spec fn sound_choices(materials: Seq<MaterialChoice>, n: nat) -> bool {
    forall|i: int| 0 <= i < n ==> #[trigger] sound_choice(materials, i)
}

spec fn sound_choice(materials: Seq<MaterialChoice>, i: int) -> bool {
    let material = materials[i];
    &&& !crate::text::blank(material.id@)
    &&& !crate::check_values::repeated_material(materials, i)
    &&& crate::check_values::unit_color(material.base_color_srgb@)
    &&& material.base_color_variation.is_finite()
    &&& material.base_color_variation.within(Single::zero(), Single::ratio(1, 2))
    &&& material.roughness.is_valid()
    &&& Single::zero().at_most(material.roughness.min)
    &&& material.roughness.max.at_most(Single::one())
    &&& material.weathering.is_valid()
    &&& Single::zero().at_most(material.weathering.min)
    &&& material.weathering.max.at_most(Single::one())
}

proof fn lemma_first_materials(path: Seq<char>, materials: Seq<MaterialChoice>, n: nat)
    requires
        sound_choices(materials, n),
    ensures
        kept(crate::check_values::first_material_rules(path, materials, n)),
    decreases n,
{
    if n > 0 {
        lemma_first_materials(path, materials, (n - 1) as nat);
        assert(sound_choice(materials, n - 1));
    }
}

proof fn lemma_palette(path: Seq<char>, materials: Seq<MaterialChoice>)
    requires
        materials.len() > 0,
        materials[0].weight > 0,
        sound_choices(materials, materials.len()),
    ensures
        kept(crate::check_values::materials_rules(path, materials)),
{
    lemma_first_materials(path, materials, materials.len());
}

proof fn lemma_roof_choices(materials: MaterialSamplingConfig)
    requires
        materials.is_standard(),
    ensures
        sound_choices(materials.roof@, 9),
{
    lemma_units();
    reveal_strlit("original_red");
    reveal_strlit("faded_red");
    reveal_strlit("terracotta_orange");
    reveal_strlit("weathered_tan_brown");
    reveal_strlit("light_metal");
    reveal_strlit("repainted_neutral");
    reveal_strlit("repainted_dark");
    reveal_strlit("repainted_blue");
    reveal_strlit("repainted_green");
    assert("terracotta_orange"@[0] != "repainted_neutral"@[0]);
    assert("repainted_dark"@[10] != "repainted_blue"@[10]);
    let materials = materials.roof@;
    assert forall|i: int| 0 <= i < 9 implies #[trigger] sound_choice(materials, i) by {
        assert(!crate::text::blank(materials[i].id@)) by {
            assert(!crate::text::white_space(materials[i].id@[0]));
        }
    }
}

proof fn lemma_wall_choices(materials: MaterialSamplingConfig)
    requires
        materials.is_standard(),
    ensures
        sound_choices(materials.walls@, 6),
{
    lemma_units();
    reveal_strlit("warm_brick");
    reveal_strlit("painted_render");
    reveal_strlit("neutral_cladding");
    reveal_strlit("dark_repaint");
    reveal_strlit("blue_repaint");
    reveal_strlit("green_repaint");
    assert("dark_repaint"@[0] != "blue_repaint"@[0]);
    let materials = materials.walls@;
    assert forall|i: int| 0 <= i < 6 implies #[trigger] sound_choice(materials, i) by {
        assert(!crate::text::blank(materials[i].id@)) by {
            assert(!crate::text::white_space(materials[i].id@[0]));
        }
    }
}

proof fn lemma_glazing_choices(c: CompositionSamplingConfig)
    requires
        c.is_standard(),
    ensures
        sound_choices(c.facade.glazing_materials@, 3),
{
    lemma_units();
    reveal_strlit("blue_grey_glass");
    reveal_strlit("neutral_glass");
    reveal_strlit("dark_tint");
    let materials = c.facade.glazing_materials@;
    assert forall|i: int| 0 <= i < 3 implies #[trigger] sound_choice(materials, i) by {
        assert(!crate::text::blank(materials[i].id@)) by {
            assert(!crate::text::white_space(materials[i].id@[0]));
        }
    }
}

proof fn lemma_ground_choices(c: CompositionSamplingConfig)
    requires
        c.is_standard(),
    ensures
        sound_choices(c.ground_materials@, 4),
{
    lemma_units();
    reveal_strlit("aged_asphalt");
    reveal_strlit("light_concrete");
    reveal_strlit("dark_asphalt");
    reveal_strlit("paving_blocks");
    assert("aged_asphalt"@[0] != "dark_asphalt"@[0]);
    let materials = c.ground_materials@;
    assert forall|i: int| 0 <= i < 4 implies #[trigger] sound_choice(materials, i) by {
        assert(!crate::text::blank(materials[i].id@)) by {
            assert(!crate::text::white_space(materials[i].id@[0]));
        }
    }
}

pub(crate) proof fn lemma_finishes(materials: MaterialSamplingConfig)
    requires
        materials.is_standard(),
    ensures
        kept(crate::check_values::materials_rules("materials.roof"@, materials.roof@)),
        kept(crate::check_values::materials_rules("materials.walls"@, materials.walls@)),
{
    lemma_roof_choices(materials);
    lemma_wall_choices(materials);
    lemma_palette("materials.roof"@, materials.roof@);
    lemma_palette("materials.walls"@, materials.walls@);
}

proof fn lemma_surfaces(c: CompositionSamplingConfig)
    requires
        c.is_standard(),
    ensures
        kept(crate::check_composition::surfaces_rules(c)),
{
    lemma_units();
    lemma_ground_choices(c);
    lemma_glazing_choices(c);
    lemma_palette("composition.ground_materials"@, c.ground_materials@);
    lemma_palette("composition.facade.glazing_materials"@, c.facade.glazing_materials@);
}

pub(crate) proof fn lemma_composition(c: GeneratorConfig)
    requires
        c.is_standard(),
    ensures
        kept(crate::check_composition::composition_rules(c)),
{
    lemma_surfaces(c.composition);
    lemma_extensions();
    lemma_signage();
    lemma_day_phases();
    lemma_weathers();
    lemma_domains();
    lemma_backgrounds();
    lemma_vegetation();
}

} // verus!
