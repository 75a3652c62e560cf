//! Scene descriptions, their geometry, cameras and frames.

use synth_roof::assembly::{
    SceneLooks, append_building_extension, append_sign, frond_yaw, occluder_size,
    weathered_channel,
};
use synth_roof::geometry::Turn;
use synth_roof::looks::{find_round_turns, half};
use synth_roof::mesh::{
    RenderMesh, RenderVertex, RoofSurface, RoofVertex, append_surfaces, count_vertices,
    list_context,
};
use synth_roof::mips::linear_base;
use synth_roof::patch::Patch;
use synth_roof::readback::{
    ByteOrder, FrameBytes, ReadbackLayout, RenderedFrame, decode_single, decode_u32,
};
use synth_roof::record::{CameraIntrinsics, CameraModel, DistortionModel, ImageTransform};
use synth_roof::render_error::RenderError;
use synth_roof::scene::{
    BuildingExtensionDescription, BuildingExtensionKind, BuildingExtensionRoof, BuildingSide,
    EnvironmentDomain, RenderEnvironment, SceneDescription, SceneOccluder, SceneOccluderKind,
    SignDescription, SignMount, SignStyle, TimeOfDay, TreeInstance, TreeKind,
};
use synth_roof::shapes::{
    append_background_box, append_box, append_ellipsoid_tinted, append_quad, cylinder_angle,
    ring_angle, segment_angle,
};
use synth_roof::single::Single;
use synth_roof::surface::{MaterialSelection, MaterialSlot, SurfacePattern};
use synth_roof::types::RigidTransform;
use synth_roof::view::{RenderCamera, RenderSettings, check_render, light_frame, validate_settings};

fn s(value: f32) -> Single {
    Single::from_bits(value.to_bits())
}

fn f(value: Single) -> f32 {
    f32::from_bits(value.to_bits())
}

fn v<const N: usize>(value: [f32; N]) -> [Single; N] {
    value.map(s)
}

fn turn(angle: Single) -> Turn {
    Turn { cosine: s(f(angle).cos()), sine: s(f(angle).sin()) }
}

fn power(base: Single) -> Single {
    s(f(base).powf(2.4))
}

fn looks_of(scene: &SceneDescription) -> SceneLooks {
    SceneLooks::of(scene, &turn, &power)
}


fn assembled(patches: &Vec<Patch>) -> RenderMesh {
    let mut mesh = RenderMesh::default();
    append_surfaces(&mut mesh, patches, find_round_turns(&turn));
    mesh
}

/// A hipped roof of four labelled faces.
fn roof() -> RoofSurface {
    let apex = [0.0, 2.0, 0.0];
    let corners = [[-11.0, 0.0, -8.0], [11.0, 0.0, -8.0], [11.0, 0.0, 8.0], [-11.0, 0.0, 8.0]];
    let normals = [[0.0, 0.97, -0.24], [0.18, 0.98, 0.0], [0.0, 0.97, 0.24], [-0.18, 0.98, 0.0]];
    let mut vertices = Vec::new();
    let mut indices = Vec::new();
    for side in 0..4 {
        let points = [corners[side], corners[(side + 1) % 4], apex];
        for (at, point) in points.iter().enumerate() {
            indices.push(vertices.len() as u32);
            vertices.push(RoofVertex {
                position: v(*point),
                normal: v(normals[side]),
                face_coord: v([[0.0, 0.0], [1.0, 0.0], [0.5, 1.0]][at]),
                face_id: side as u32 + 1,
            });
        }
    }
    RoofSurface { vertices, indices }
}

fn standard(environment: RenderEnvironment) -> SceneDescription {
    SceneDescription::contextual(s(20.0), s(14.0), s(4.0), s(40.0), environment).unwrap()
}

fn bare() -> SceneDescription {
    let environment = RenderEnvironment::default();
    SceneDescription::new(s(20.0), s(14.0), s(4.0), s(40.0), environment)
}

fn triangle() -> RenderMesh {
    let corners = [[-1.0, -1.0, 0.0], [1.0, -1.0, 0.0], [0.0, 1.0, 0.0]];
    let coords = [[0.0, 0.0], [1.0, 0.0], [0.5, 1.0]];
    let vertices = (0..3)
        .map(|at| RenderVertex {
            position: v(corners[at]),
            normal: v([0.0, 0.0, 1.0]),
            face_coord: v(coords[at]),
            semantic_id: 7,
            material: MaterialSlot::Roof,
            appearance: v([0.0; 4]),
            pattern: SurfacePattern::inherit(),
        })
        .collect();
    RenderMesh { vertices, indices: vec![0, 1, 2], ..RenderMesh::default() }
}

#[test]
fn validates_triangle_mesh() {
    triangle().validate().unwrap();
}

#[test]
fn preserves_shared_geometry_semantics() {
    let roof = roof();
    let mesh = RenderMesh::from_roof(&roof);
    mesh.validate().unwrap();
    assert_eq!(mesh.vertices.len(), roof.vertices.len());
    assert_eq!(mesh.vertices[0].semantic_id, roof.vertices[0].face_id);
    assert_eq!(mesh.vertices[4].position, roof.vertices[4].position);
    assert_eq!(mesh.indices, roof.indices);
}

#[test]
fn building_scene_keeps_non_roof_semantics_at_zero() {
    let looks = looks_of(&standard(RenderEnvironment::default()));
    let scene =
        RenderMesh::roof_building_scene(&roof(), s(20.0), s(14.0), s(4.0), s(40.0), &looks)
            .unwrap();
    assert!(scene.vertices.iter().any(|vertex| vertex.semantic_id == 0));
    assert!(scene.vertices.iter().any(|vertex| vertex.semantic_id == 1));
    scene.validate().unwrap();
}

#[test]
fn rejects_out_of_bounds_index() {
    let mut mesh = triangle();
    mesh.indices[2] = 3;
    assert!(matches!(mesh.validate(), Err(RenderError::IndexOutOfBounds { index: 3, .. })));
}

#[test]
fn unsound_meshes_are_refused() {
    let empty = RenderMesh { vertices: Vec::new(), ..triangle() };
    assert_eq!(empty.validate(), Err(RenderError::EmptyMesh));
    let mut open = triangle();
    open.indices.pop();
    assert_eq!(open.validate(), Err(RenderError::InvalidIndexCount(2)));
    let mut stray = triangle();
    stray.vertices[1].normal[2] = s(f32::NAN);
    assert_eq!(stray.validate(), Err(RenderError::NonFiniteVertex));
    let mut unknown = triangle();
    unknown.vertices[0].pattern = SurfacePattern { code: 99 };
    assert_eq!(unknown.validate(), Err(RenderError::NonFiniteVertex));
    let mut dark = triangle();
    dark.environment.visibility_km = s(-1.0);
    assert_eq!(dark.validate(), Err(RenderError::InvalidSceneDescription));
}

#[test]
fn building_extensions_add_unlabelled_wall_roof_and_glazing_geometry() {
    for roof in [BuildingExtensionRoof::Flat, BuildingExtensionRoof::Shed] {
        let mut patches = Vec::new();
        append_building_extension(
            &mut patches,
            BuildingExtensionDescription {
                kind: BuildingExtensionKind::DiningWing,
                facade: BuildingSide::Front,
                position: v([1.0, 0.0, -9.0]),
                size: v([7.0, 3.0, 4.0]),
                roof,
                roof_rise_m: s(if roof == BuildingExtensionRoof::Shed { 0.5 } else { 0.0 }),
            },
        );
        let mesh = assembled(&patches);

        assert!(!mesh.vertices.is_empty());
        assert!(mesh.vertices.iter().all(|vertex| vertex.semantic_id == 0));
        assert!(mesh.vertices.iter().any(|vertex| vertex.material == MaterialSlot::Wall));
        assert!(mesh.vertices.iter().any(|vertex| vertex.material == MaterialSlot::Roof));
        assert!(mesh.vertices.iter().any(|vertex| vertex.material == MaterialSlot::Glass));
    }
}

#[test]
fn context_density_changes_by_domain() {
    let city = standard(RenderEnvironment {
        domain: EnvironmentDomain::City,
        ..RenderEnvironment::default()
    });
    let remote = standard(RenderEnvironment {
        domain: EnvironmentDomain::Remote,
        ..RenderEnvironment::default()
    });

    assert!(city.background_buildings.len() > remote.background_buildings.len());
    assert!(remote.trees.len() > city.trees.len());
}

#[test]
fn night_context_includes_local_lighting() {
    let scene = standard(RenderEnvironment {
        time_of_day: TimeOfDay::Night,
        ..RenderEnvironment::default()
    });
    assert!(!scene.lights.is_empty());
    assert!(scene.lights.iter().all(|light| light.is_valid()));
}

#[test]
fn background_caps_do_not_receive_window_patterns() {
    let mut patches = Vec::new();
    append_background_box(
        &mut patches,
        v([0.0, 2.0, 0.0]),
        v([8.0, 4.0, 6.0]),
        turn(s(0.0)),
        v([0.3, 0.2, 0.1, 0.8]),
        SurfacePattern::background_windows_brick(),
    );
    let mesh = assembled(&patches);
    assert!(mesh.vertices.iter().any(|vertex| {
        f(vertex.normal[1]).abs() < 0.1
            && vertex.pattern == SurfacePattern::background_windows_brick()
    }));
    assert!(
        mesh.vertices
            .iter()
            .filter(|vertex| f(vertex.normal[1]).abs() > 0.9)
            .all(|vertex| vertex.pattern == SurfacePattern::brick())
    );
}

#[test]
fn generic_signs_and_vehicle_glass_do_not_inherit_branded_or_window_emission() {
    let mut scene = bare();
    scene.occluders = vec![
        SceneOccluder {
            kind: SceneOccluderKind::PoleSign,
            position: v([8.0, 0.0, -8.0]),
            yaw_radians: s(0.2),
            scale: s(1.0),
            nominal_size_m: v([2.5, 5.0, 0.2]),
        },
        SceneOccluder {
            kind: SceneOccluderKind::Vehicle,
            position: v([-7.0, 0.0, -8.0]),
            yaw_radians: s(-0.2),
            scale: s(1.0),
            nominal_size_m: v([4.2, 1.5, 1.8]),
        },
    ];
    let mesh = RenderMesh::from_scene(&roof(), &scene, &looks_of(&scene)).unwrap();
    assert!(mesh.vertices.iter().any(|vertex| {
        vertex.material == MaterialSlot::Sign && vertex.pattern == SurfacePattern::generic_sign()
    }));
    assert!(!mesh.vertices.iter().any(|vertex| {
        vertex.material == MaterialSlot::Sign
            && vertex.pattern == SurfacePattern::pizza_hut_sign()
    }));
    assert!(mesh.vertices.iter().any(|vertex| {
        vertex.material == MaterialSlot::Glass
            && vertex.pattern == SurfacePattern::vehicle_glass()
    }));
}

#[test]
fn branded_sign_art_is_limited_to_two_panel_faces() {
    let mut patches = Vec::new();
    append_sign(
        &mut patches,
        SignDescription {
            style: SignStyle::PizzaHut,
            mount: SignMount::Facade,
            center: v([0.0, 3.0, -7.0]),
            size: v([4.0, 1.2]),
            yaw_radians: s(0.0),
            emissive_strength: s(1.0),
            weathering: s(0.1),
        },
        turn(s(0.0)),
        find_round_turns(&turn),
    );
    let mesh = assembled(&patches);
    let art_vertices: Vec<&RenderVertex> = mesh
        .vertices
        .iter()
        .filter(|vertex| vertex.pattern == SurfacePattern::pizza_hut_sign())
        .collect();
    assert_eq!(art_vertices.len(), 8);
    assert!(art_vertices.iter().all(|vertex| vertex.material == MaterialSlot::Sign));
    assert!(mesh.vertices.iter().any(|vertex| {
        vertex.material == MaterialSlot::Trim && vertex.pattern == SurfacePattern::smooth()
    }));
}

#[test]
fn resolved_nominal_occluder_size_is_not_scaled_twice() {
    let resolved = SceneOccluder {
        kind: SceneOccluderKind::Vehicle,
        position: v([0.0; 3]),
        yaw_radians: s(0.0),
        scale: s(1.8),
        nominal_size_m: v([4.0, 1.5, 2.0]),
    };
    assert_eq!(occluder_size(resolved, v([2.0, 1.0, 1.0])), v([4.0, 1.5, 2.0]));
    let unresolved = SceneOccluder { nominal_size_m: v([0.0; 3]), ..resolved };
    assert_eq!(occluder_size(unresolved, v([2.0, 1.0, 1.0])), v([3.6, 1.8, 1.8]));
}

#[test]
fn assembled_context_is_nonsemantic_except_for_roof() {
    let roof = roof();
    let scene = standard(RenderEnvironment::default());
    let mesh = RenderMesh::from_scene(&roof, &scene, &looks_of(&scene)).unwrap();
    let semantic_vertices =
        mesh.vertices.iter().filter(|vertex| vertex.semantic_id != 0).count();

    assert_eq!(semantic_vertices, roof.vertices.len());
    assert!(mesh.vertices.len() > roof.vertices.len() * 10);
}

#[test]
fn entrance_side_moves_canopy_to_the_selected_wall() {
    let roof = roof();
    let mut front = bare();
    front.facade.entrance_side = BuildingSide::Front;
    let front_mesh = RenderMesh::from_scene(&roof, &front, &looks_of(&front)).unwrap();
    let mut left = front;
    left.facade.entrance_side = BuildingSide::Left;
    let left_mesh = RenderMesh::from_scene(&roof, &left, &looks_of(&left)).unwrap();

    let least_trim = |mesh: &RenderMesh, axis: usize| {
        mesh.vertices
            .iter()
            .filter(|vertex| vertex.material == MaterialSlot::Trim)
            .map(|vertex| f(vertex.position[axis]))
            .fold(f32::INFINITY, f32::min)
    };
    assert!(least_trim(&front_mesh, 2) < -7.5);
    assert!(least_trim(&left_mesh, 0) < -10.5);
}

#[test]
fn every_domain_and_hour_assembles() {
    for domain in [EnvironmentDomain::City, EnvironmentDomain::Urban, EnvironmentDomain::Remote] {
        for time_of_day in [TimeOfDay::Day, TimeOfDay::Twilight, TimeOfDay::Night] {
            let scene =
                standard(RenderEnvironment { domain, time_of_day, ..RenderEnvironment::default() });
            let looks = looks_of(&scene);
            let patches = list_context(&scene, &looks);
            let mesh = RenderMesh::from_scene(&roof(), &scene, &looks).unwrap();
            mesh.validate().unwrap();
            assert_eq!(
                mesh.vertices.len() as u128,
                roof().vertices.len() as u128 + count_vertices(&patches)
            );
            let lit = time_of_day != TimeOfDay::Day;
            assert_eq!(mesh.lights.is_empty(), !lit);
        }
    }
}

#[test]
fn unsound_scenes_are_refused() {
    let day = RenderEnvironment::default();
    let flat = SceneDescription::contextual(s(20.0), s(14.0), s(0.0), s(40.0), day);
    assert_eq!(flat.unwrap_err(), RenderError::InvalidSceneDescription);
    let mut scene = bare();
    scene.trees.push(TreeInstance {
        position: v([1.0, 0.0, 1.0]),
        height_m: s(-4.0),
        crown_radius_m: s(1.0),
        kind: TreeKind::Palm,
        yaw_radians: s(0.0),
        seasonal_variation: s(0.5),
    });
    assert_eq!(scene.validate(), Err(RenderError::InvalidSceneDescription));
    let looks = looks_of(&scene);
    assert_eq!(
        RenderMesh::from_scene(&roof(), &scene, &looks),
        Err(RenderError::InvalidSceneDescription)
    );
}

#[test]
fn quads_face_their_normals() {
    let mut patches = Vec::new();
    append_quad(
        &mut patches,
        [v([0.0, 0.0, 0.0]), v([2.0, 0.0, 0.0]), v([2.0, 3.0, 0.0]), v([0.0, 3.0, 0.0])],
        MaterialSlot::Wall,
    );
    let mesh = assembled(&patches);
    assert_eq!(mesh.indices, vec![0, 1, 2, 0, 2, 3]);
    assert!(mesh.vertices.iter().all(|vertex| vertex.normal == v([0.0, 0.0, 1.0])));
    assert_eq!(mesh.vertices[2].position, v([2.0, 3.0, 0.0]));
    assert_eq!(mesh.vertices[2].face_coord, v([1.0, 1.0]));
}

#[test]
fn boxes_turn_about_their_center() {
    let yaw = std::f32::consts::FRAC_PI_2;
    let mut patches = Vec::new();
    append_box(&mut patches, v([5.0, 1.0, 0.0]), v([4.0, 2.0, 1.0]), turn(s(yaw * 0.5)), MaterialSlot::Metal);
    let mesh = assembled(&patches);
    assert_eq!(mesh.vertices.len(), 24);
    let reach = |axis: usize, center: f32| {
        mesh.vertices
            .iter()
            .map(|vertex| (f(vertex.position[axis]) - center).abs())
            .fold(0.0_f32, f32::max)
    };
    assert!((reach(0, 5.0) - 0.5).abs() < 1.0e-5);
    assert!((reach(1, 1.0) - 1.0).abs() < 1.0e-5);
    assert!((reach(2, 0.0) - 2.0).abs() < 1.0e-5);
}

#[test]
fn ellipsoids_stay_on_their_surface() {
    let mut patches = Vec::new();
    append_ellipsoid_tinted(
        &mut patches,
        v([1.0, 2.0, 3.0]),
        v([2.0, 1.0, 0.5]),
        MaterialSlot::Foliage,
        v([0.1, 0.2, 0.3, 0.4]),
    );
    let mesh = assembled(&patches);
    assert_eq!(mesh.vertices.len(), 8 * 13);
    for vertex in &mesh.vertices {
        let [x, y, z] = vertex.position.map(f);
        let on = ((x - 1.0) / 2.0).powi(2) + (y - 2.0).powi(2) + ((z - 3.0) / 0.5).powi(2);
        assert!((on - 1.0).abs() < 1.0e-4);
        let length: f32 = vertex.normal.map(f).iter().map(|part| part * part).sum();
        assert!((length - 1.0).abs() < 1.0e-4);
    }
}

#[test]
fn slots_choose_their_layers_and_patterns() {
    let mut selection = MaterialSelection::default();
    assert!(selection.is_valid());
    selection.set(MaterialSlot::Wall, 9).unwrap();
    assert_eq!(selection.get(MaterialSlot::Wall), 9);
    assert_eq!(selection.get(MaterialSlot::Roof), MaterialSelection::standard().get(MaterialSlot::Roof));
    assert_eq!(selection.set(MaterialSlot::Wall, 32), Err(RenderError::InvalidTextureData));
    assert_eq!(selection.get(MaterialSlot::Wall), 9);
    selection.set_pattern(MaterialSlot::Roof, SurfacePattern::roof_seams());
    assert_eq!(selection.pattern(MaterialSlot::Roof), SurfacePattern::roof_seams());
    assert_eq!(MaterialSlot::Roof.as_u32(), 0);
    assert_eq!(MaterialSlot::TenantSign.as_u32(), 15);
    assert_eq!(SurfacePattern::inherit().as_u32(), 0);
    assert!(SurfacePattern::background_windows_cladding().is_known());
}

fn rotate_back(rotation: [f32; 4], vector: [f32; 3]) -> [f32; 3] {
    let [x, y, z, w] = rotation;
    let columns = [
        [1.0 - 2.0 * (y * y + z * z), 2.0 * (x * y + z * w), 2.0 * (x * z - y * w)],
        [2.0 * (x * y - z * w), 1.0 - 2.0 * (x * x + z * z), 2.0 * (y * z + x * w)],
        [2.0 * (x * z + y * w), 2.0 * (y * z - x * w), 1.0 - 2.0 * (x * x + y * y)],
    ];
    columns.map(|axis| axis[0] * vector[0] + axis[1] * vector[1] + axis[2] * vector[2])
}

fn clip_of(camera: RenderCamera, point: [f32; 3]) -> [Single; 4] {
    let origin = camera.position().map(f);
    let offset = [point[0] - origin[0], point[1] - origin[1], point[2] - origin[2]];
    let [x, y, z] = rotate_back(camera.world_from_camera.rotation_xyzw.map(f), offset);
    let columns = camera.projection_columns().map(|column| column.map(f));
    let row = |at: usize| {
        columns[0][at] * x + columns[1][at] * y + columns[2][at] * z + columns[3][at]
    };
    v([row(0), row(1), row(2), row(3)])
}

fn facing_camera() -> RenderCamera {
    let half = s(0.5_f32.tan());
    RenderCamera::look_at(
        v([0.0, 0.0, 5.0]),
        v([0.0; 3]),
        v([0.0, 0.0, 0.0, 1.0]),
        640,
        480,
        half,
    )
}

#[test]
fn rejects_invalid_camera() {
    let half = s(0.5_f32.tan());
    let still = v([0.0, 0.0, 0.0, 1.0]);
    let camera = RenderCamera::look_at(v([0.0; 3]), v([0.0; 3]), still, 640, 480, half);
    assert!(matches!(camera.projection(640, 480), Err(RenderError::InvalidCamera)));
}

#[test]
fn projects_camera_target_to_image_center() {
    let camera = facing_camera();
    let point = camera.project(clip_of(camera, [0.0; 3]), 640, 480).unwrap();
    assert!(point.in_frame);
    assert!((f(point.pixel[0]) - 320.0).abs() < 1.0e-4);
    assert!((f(point.pixel[1]) - 240.0).abs() < 1.0e-4);
}

fn calibrated() -> CameraModel {
    CameraModel {
        intrinsics: CameraIntrinsics {
            width: 640,
            height: 480,
            fx: s(500.0),
            fy: s(450.0),
            cx: s(311.25),
            cy: s(237.75),
            skew: s(2.0),
        },
        distortion: DistortionModel::Pinhole,
        world_from_camera: RigidTransform::identity(),
        output_from_sensor: ImageTransform::identity(),
    }
}

#[test]
fn projection_preserves_exact_recorded_intrinsics() {
    let camera = RenderCamera::from_camera_model(calibrated()).unwrap();
    let center = camera.project(clip_of(camera, [0.0, 0.0, -5.0]), 640, 480).unwrap();
    assert!((f(center.pixel[0]) - 311.25).abs() < 1.0e-4);
    assert!((f(center.pixel[1]) - 237.75).abs() < 1.0e-4);

    let offset = camera.project(clip_of(camera, [1.0, 1.0, -5.0]), 640, 480).unwrap();
    assert!((f(offset.pixel[0]) - (311.25 + 100.0 - 0.4)).abs() < 1.0e-4);
    assert!((f(offset.pixel[1]) - (237.75 - 90.0)).abs() < 1.0e-4);
}

#[test]
fn linearizes_projection_depth_at_clip_planes() {
    let camera = facing_camera();
    let depth = |value: f32| camera.linearize_depth(s(value)).map(f);
    assert!((depth(0.0).unwrap() - f(camera.near)).abs() < 1.0e-6);
    assert!((depth(1.0).unwrap() - f(camera.far)).abs() < 0.02);
    assert!(depth(f32::NAN).is_none());
}

#[test]
fn camera_effects_and_sizes_are_checked() {
    let mut bent = calibrated();
    bent.distortion = DistortionModel::BrownConrady {
        k1: s(0.1),
        k2: s(0.0),
        p1: s(0.0),
        p2: s(0.0),
        k3: s(0.0),
    };
    assert!(matches!(
        RenderCamera::from_camera_model(bent),
        Err(RenderError::UnsupportedCameraEffects)
    ));
    let camera = RenderCamera::from_camera_model(calibrated()).unwrap();
    assert_eq!(
        camera.check(320, 240),
        Err(RenderError::CameraDimensionMismatch {
            camera_width: 640,
            camera_height: 480,
            render_width: 320,
            render_height: 240,
        })
    );
    let behind = camera.project(clip_of(camera, [0.0, 0.0, 5.0]), 640, 480).unwrap();
    assert!(!behind.in_frame);
}

#[test]
fn settings_are_checked_before_a_render() {
    let camera = facing_camera();
    let settings = RenderSettings::standard(camera);
    let settings = RenderSettings { width: 640, height: 480, ..settings };
    let mesh = triangle();
    assert_eq!(validate_settings(&settings), Ok(()));
    assert_eq!(check_render(&mesh, &settings, 640), Ok(()));
    assert_eq!(
        check_render(&mesh, &settings, 639),
        Err(RenderError::DimensionsExceedDeviceLimit { width: 640, height: 480, maximum: 639 })
    );
    let empty = RenderSettings { width: 0, ..settings.clone() };
    assert_eq!(
        validate_settings(&empty),
        Err(RenderError::InvalidDimensions { width: 0, height: 480 })
    );
    let unlit = RenderSettings { light_direction: v([0.0; 3]), ..settings.clone() };
    assert_eq!(light_frame(&mesh, &unlit).unwrap_err(), RenderError::InvalidLight);
    let dull = RenderSettings { roof_roughness: s(-1.0), ..settings };
    assert_eq!(validate_settings(&dull), Err(RenderError::InvalidAppearance));
}

#[test]
fn lights_look_at_everything_that_throws_a_shadow() {
    let settings = RenderSettings::standard(facing_camera());
    let frame = light_frame(&triangle(), &settings).unwrap();
    assert_eq!(frame.center, v([0.0; 3]));
    assert!(f(frame.radius) >= 2.0_f32.sqrt());
    let length: f32 = frame.light.map(f).iter().map(|part| part * part).sum();
    assert!((length - 1.0).abs() < 1.0e-5);
}

#[test]
fn error_sentences_name_their_numbers() {
    assert_eq!(
        RenderError::InvalidDimensions { width: 0, height: 5 }.message(),
        "invalid render dimensions 0x5"
    );
    assert_eq!(
        RenderError::IndexOutOfBounds { index: 9, vertex_count: 3 }.message(),
        "mesh index 9 exceeds vertex count 3"
    );
    assert_eq!(
        RenderError::InvalidIndexCount(2).message(),
        "render mesh index count 2 is not a non-empty triangle list"
    );
}

#[test]
fn padding_is_taken_out_of_every_row() {
    let layout = ReadbackLayout::new(3, 2, 4, 256).unwrap();
    assert_eq!(layout.padded_bytes_per_row, 256);
    assert_eq!(layout.buffer_size(), 512);
    let padded: Vec<u8> = (0..512).map(|at| (at % 251) as u8).collect();
    let bare = layout.remove_padding(&padded);
    assert_eq!(bare[..12], padded[..12]);
    assert_eq!(bare[12..], padded[256..268]);
    assert_eq!(
        ReadbackLayout::new(u32::MAX, 1, 4, 256),
        Err(RenderError::ReadbackLayoutOverflow)
    );
}

#[test]
fn staging_buffers_become_frames() {
    let layout = ReadbackLayout::new(2, 1, 4, 8).unwrap();
    assert_eq!(layout.padded_bytes_per_row, 8);
    let staging = FrameBytes {
        color: vec![1, 2, 3, 4, 5, 6, 7, 8],
        semantic: [7_u32.to_le_bytes(), 0_u32.to_le_bytes()].concat(),
        amodal: [7_u32.to_le_bytes(), 9_u32.to_le_bytes()].concat(),
        face: [0x3c00_u16, 0x3800, 0, 0xc000].iter().flat_map(|half| half.to_le_bytes()).collect(),
        depth: [0.25_f32.to_le_bytes(), 1.0_f32.to_le_bytes()].concat(),
    };
    let frame = RenderedFrame::from_staging(layout, &staging, ByteOrder::LowestFirst);
    assert_eq!(frame.pixel_count(), 2);
    assert_eq!(frame.color_rgba8, staging.color);
    assert_eq!(frame.semantic_ids, vec![7, 0]);
    assert_eq!(frame.amodal_semantic_ids, vec![7, 9]);
    assert_eq!(frame.face_coordinates, vec![v([1.0, 0.5]), v([0.0, -2.0])]);
    assert_eq!(frame.depth, v([0.25, 1.0]).to_vec());
    assert_eq!(decode_u32(&7_u32.to_be_bytes(), ByteOrder::HighestFirst), vec![7]);
    assert_eq!(
        decode_single(&1.5_f32.to_be_bytes(), ByteOrder::HighestFirst),
        vec![s(1.5)]
    );
}

#[test]
fn looks_follow_every_object_of_a_scene() {
    let scene = standard(RenderEnvironment::default());
    let looks = looks_of(&scene);
    assert!(looks.do_cover(&scene));
    let yaw = scene.site.parking_yaw_radians;
    assert_eq!(looks.parking, turn(yaw));
    assert_eq!(looks.parking_half, turn(half(yaw)));
    assert_eq!(looks.round.cylinder[2], turn(cylinder_angle(2)));
    assert_eq!(looks.round.rings[7], turn(ring_angle(7)));
    assert_eq!(looks.round.segments[12], turn(segment_angle(12)));
    for (tree, turns) in scene.trees.iter().zip(&looks.trees) {
        assert_eq!(turns.turn, turn(tree.yaw_radians));
        assert_eq!(turns.fronds[4], turn(frond_yaw(tree.yaw_radians, 4)));
        let back = s(-f(frond_yaw(tree.yaw_radians, 4)) * 0.5);
        assert_eq!(turns.frond_halves[4], turn(back));
    }
    for (item, look) in scene.background_buildings.iter().zip(&looks.backgrounds) {
        let channel = weathered_channel(item.base_color_srgb[1], item.weathering);
        assert_eq!(f(look.raised[1]), f(linear_base(channel)).powf(2.4));
    }
}
