//! Cameras, appearance settings and the numbers that one render hands to its shader.

use crate::geometry::Turn;
use crate::mesh::{RenderMesh, RenderVertex};
use crate::mips::srgb_to_linear;
use crate::plan::{SampledMaterial, SampledScene};
use crate::record::{CameraIntrinsics, CameraModel, DistortionModel, ImageTransform};
use crate::render_error::RenderError;
use crate::scene::{EnvironmentDomain, SceneLight, WeatherAppearance, MAX_LIGHTS};
use crate::shapes::{cross, dot, is_zero, moved, offset, scaled, unit_or_zero};
use crate::single::Single;
use crate::surface::MaterialSlot;
use crate::types::{RigidTransform, Vec3};
use vstd::prelude::*;

verus! {

/// Pinhole camera parameters for one synthetic frame.
#[derive(Clone, Copy, Debug, PartialEq)]
pub struct RenderCamera {
    /// Exact camera-to-world transform used by the dataset record.
    pub world_from_camera: RigidTransform,
    /// Exact output-image pinhole calibration, in pixels.
    pub intrinsics: CameraIntrinsics,
    /// Near clipping plane.
    pub near: Single,
    /// Far clipping plane.
    pub far: Single,
}

/// Image-space projection of one world-space structural point.
#[derive(Clone, Copy, Debug, PartialEq)]
pub struct ProjectedPoint {
    /// Pixel coordinates measured from the output's top-left corner.
    pub pixel: [Single; 2],
    /// Normalized device depth in the WGPU zero-to-one range.
    pub depth: Single,
    /// Whether the projected point lies inside the camera frustum.
    pub in_frame: bool,
}

/// Directions of an upright camera.
#[derive(Clone, Copy, Debug, PartialEq)]
pub struct ViewAxes {
    /// To the right of the image.
    pub right: [Single; 3],
    /// To the top of the image.
    pub up: [Single; 3],
    /// Away from what is looked at.
    pub back: [Single; 3],
}

/// World up.
pub open spec fn spec_world_up() -> [Single; 3] {
    [Single::zero(), Single::one(), Single::zero()]
}

/// World up.
#[verifier::when_used_as_spec(spec_world_up)]
pub fn world_up() -> (r: [Single; 3])
    ensures
        r == spec_world_up(),
{
    [Single::zero(), Single::one(), Single::zero()]
}

/// Directions of an upright camera that looks at a target, unless it looks nowhere or
/// straight up or down.
pub open spec fn spec_view_axes(position: [Single; 3], target: [Single; 3]) -> Option<ViewAxes> {
    let forward = unit_or_zero(offset(target, position));
    let right = unit_or_zero(cross(forward, world_up()));
    if is_zero(forward) || is_zero(right) {
        None
    } else {
        Some(
            ViewAxes {
                right,
                up: cross(right, forward),
                back: [forward[0].negated(), forward[1].negated(), forward[2].negated()],
            },
        )
    }
}

/// Directions of an upright camera that looks at a target, unless it looks nowhere or
/// straight up or down.
#[verifier::when_used_as_spec(spec_view_axes)]
pub fn view_axes(position: [Single; 3], target: [Single; 3]) -> (r: Option<ViewAxes>)
    ensures
        r == spec_view_axes(position, target),
{
    let forward = unit_or_zero(offset(target, position));
    let right = unit_or_zero(cross(forward, world_up()));
    if is_zero(forward) || is_zero(right) {
        None
    } else {
        Some(
            ViewAxes {
                right,
                up: cross(right, forward),
                back: [forward[0].negated(), forward[1].negated(), forward[2].negated()],
            },
        )
    }
}

/// A number that is none.
pub open spec fn spec_not_a_number() -> Single {
    Single { bits: 0x7fc0_0000 }
}

/// A number that is none.
#[verifier::when_used_as_spec(spec_not_a_number)]
pub fn not_a_number() -> (r: Single)
    ensures
        r == spec_not_a_number(),
{
    Single { bits: 0x7fc0_0000 }
}

/// Whether two image mappings have equal coefficients.
pub open spec fn same_mapping(a: ImageTransform, b: ImageTransform) -> bool {
    forall|i: int| 0 <= i < 9 ==> (#[trigger] a.0@[i]).equals(b.0@[i])
}

fn is_same_mapping(a: ImageTransform, b: ImageTransform) -> (r: bool)
    ensures
        r == same_mapping(a, b),
{
    let mut i: usize = 0;
    while i < 9
        invariant
            i <= 9,
            forall|j: int| 0 <= j < i ==> (#[trigger] a.0@[j]).equals(b.0@[j]),
        decreases 9 - i,
    {
        if !a.0[i].equals(b.0[i]) {
            return false;
        }
        i = i + 1;
    }
    true
}

/// Distance of the near clipping plane of every camera.
pub open spec fn spec_near_plane() -> Single {
    Single::ratio(5, 100)
}

/// Distance of the near clipping plane of every camera.
#[verifier::when_used_as_spec(spec_near_plane)]
pub fn near_plane() -> (r: Single)
    ensures
        r == spec_near_plane(),
{
    Single::ratio(5, 100)
}

/// Distance of the far clipping plane of every camera.
pub open spec fn spec_far_plane() -> Single {
    Single::ratio(250, 1)
}

/// Distance of the far clipping plane of every camera.
#[verifier::when_used_as_spec(spec_far_plane)]
pub fn far_plane() -> (r: Single)
    ensures
        r == spec_far_plane(),
{
    Single::ratio(250, 1)
}

/// Whether a camera model asks for effects beside a pinhole.
pub open spec fn has_effects(model: CameraModel) -> bool {
    model.distortion != DistortionModel::Pinhole || !same_mapping(
        model.output_from_sensor,
        ImageTransform::identity(),
    )
}

impl RenderCamera {
    /// Creates an upright look-at camera with centered square pixels.
    ///
    /// `rotation_xyzw` is the unit quaternion of [`view_axes`], and `tan_half_fov` the
    /// tangent of half the vertical field of view. Where there are no axes the camera
    /// has no rotation, and no check lets it pass.
    pub open spec fn spec_look_at(
        position: [Single; 3],
        target: [Single; 3],
        rotation_xyzw: [Single; 4],
        width: u32,
        height: u32,
        tan_half_fov: Single,
    ) -> RenderCamera {
        let rotation = if view_axes(position, target).is_some() {
            rotation_xyzw
        } else {
            [not_a_number(), not_a_number(), not_a_number(), not_a_number()]
        };
        let focal_length = Single::from_u32(height).over(Single::ratio(2, 1).times(tan_half_fov));
        RenderCamera {
            world_from_camera: RigidTransform {
                translation: Vec3 { x: position[0], y: position[1], z: position[2] },
                rotation_xyzw: rotation,
            },
            intrinsics: CameraIntrinsics {
                width,
                height,
                fx: focal_length,
                fy: focal_length,
                cx: Single::from_u32(width).times(Single::ratio(5, 10)),
                cy: Single::from_u32(height).times(Single::ratio(5, 10)),
                skew: Single::zero(),
            },
            near: near_plane(),
            far: far_plane(),
        }
    }

    /// Creates an upright look-at camera with centered square pixels.
    ///
    /// `rotation_xyzw` is the unit quaternion of [`view_axes`], and `tan_half_fov` the
    /// tangent of half the vertical field of view. Where there are no axes the camera
    /// has no rotation, and no check lets it pass.
    #[verifier::when_used_as_spec(spec_look_at)]
    pub fn look_at(
        position: [Single; 3],
        target: [Single; 3],
        rotation_xyzw: [Single; 4],
        width: u32,
        height: u32,
        tan_half_fov: Single,
    ) -> (r: RenderCamera)
        ensures
            r == Self::spec_look_at(position, target, rotation_xyzw, width, height, tan_half_fov),
    {
        let rotation = if view_axes(position, target).is_some() {
            rotation_xyzw
        } else {
            [not_a_number(), not_a_number(), not_a_number(), not_a_number()]
        };
        let focal_length = Single::from_u32(height).over(Single::ratio(2, 1).times(tan_half_fov));
        RenderCamera {
            world_from_camera: RigidTransform {
                translation: Vec3 { x: position[0], y: position[1], z: position[2] },
                rotation_xyzw: rotation,
            },
            intrinsics: CameraIntrinsics {
                width,
                height,
                fx: focal_length,
                fy: focal_length,
                cx: Single::from_u32(width).times(Single::ratio(5, 10)),
                cy: Single::from_u32(height).times(Single::ratio(5, 10)),
                skew: Single::zero(),
            },
            near: near_plane(),
            far: far_plane(),
        }
    }

    /// The camera of a schema camera.
    pub open spec fn spec_of_model(model: CameraModel) -> RenderCamera {
        RenderCamera {
            world_from_camera: model.world_from_camera,
            intrinsics: model.intrinsics,
            near: near_plane(),
            far: far_plane(),
        }
    }

    /// The camera of a schema camera.
    #[verifier::when_used_as_spec(spec_of_model)]
    pub fn of_model(model: CameraModel) -> (r: RenderCamera)
        ensures
            r == Self::spec_of_model(model),
    {
        RenderCamera {
            world_from_camera: model.world_from_camera,
            intrinsics: model.intrinsics,
            near: near_plane(),
            far: far_plane(),
        }
    }

    /// Converts a schema camera into the exact native renderer camera.
    pub fn from_camera_model(model: CameraModel) -> (r: Result<RenderCamera, RenderError>)
        ensures
            r == (if has_effects(model) {
                Err(RenderError::UnsupportedCameraEffects)
            } else if !RenderCamera::of_model(model).is_valid() {
                Err(RenderError::InvalidCamera)
            } else {
                Ok(RenderCamera::of_model(model))
            }),
    {
        let pinhole = match model.distortion {
            DistortionModel::Pinhole => true,
            _ => false,
        };
        if !pinhole || !is_same_mapping(model.output_from_sensor, ImageTransform::identity()) {
            return Err(RenderError::UnsupportedCameraEffects);
        }
        let camera = RenderCamera::of_model(model);
        if !camera.is_valid() {
            return Err(RenderError::InvalidCamera);
        }
        Ok(camera)
    }

    /// Camera origin in world coordinates.
    pub open spec fn spec_position(self) -> [Single; 3] {
        let position = self.world_from_camera.translation;
        [position.x, position.y, position.z]
    }

    /// Camera origin in world coordinates.
    #[verifier::when_used_as_spec(spec_position)]
    pub fn position(self) -> (r: [Single; 3])
        ensures
            r == self.spec_position(),
    {
        let position = self.world_from_camera.translation;
        [position.x, position.y, position.z]
    }

    /// Tangent of half the vertical field of view implied by the stored calibration.
    pub open spec fn spec_tan_half_fov(self) -> Single {
        Single::from_u32(self.intrinsics.height).times(Single::ratio(5, 10)).over(
            self.intrinsics.fy,
        )
    }

    /// Tangent of half the vertical field of view implied by the stored calibration.
    #[verifier::when_used_as_spec(spec_tan_half_fov)]
    pub fn tan_half_fov(self) -> (r: Single)
        ensures
            r == self.spec_tan_half_fov(),
    {
        Single::from_u32(self.intrinsics.height).times(Single::ratio(5, 10)).over(
            self.intrinsics.fy,
        )
    }

    /// Whether the calibration, the transform and the clipping planes can be used.
    pub open spec fn spec_is_valid(self) -> bool {
        let k = self.intrinsics;
        k.width > 0
            && k.height > 0
            && k.fx.is_finite()
            && k.fy.is_finite()
            && k.cx.is_finite()
            && k.cy.is_finite()
            && k.skew.is_finite()
            && !k.fx.at_most(Single::zero())
            && !k.fy.at_most(Single::zero())
            && self.world_from_camera.is_valid()
            && self.near.is_finite()
            && self.far.is_finite()
            && !self.near.at_most(Single::zero())
            && !self.far.at_most(self.near)
    }

    /// Whether the calibration, the transform and the clipping planes can be used.
    #[verifier::when_used_as_spec(spec_is_valid)]
    pub fn is_valid(self) -> (r: bool)
        ensures
            r == self.spec_is_valid(),
    {
        let k = self.intrinsics;
        k.width > 0
            && k.height > 0
            && k.fx.is_finite()
            && k.fy.is_finite()
            && k.cx.is_finite()
            && k.cy.is_finite()
            && k.skew.is_finite()
            && !k.fx.at_most(Single::zero())
            && !k.fy.at_most(Single::zero())
            && self.world_from_camera.is_valid()
            && self.near.is_finite()
            && self.far.is_finite()
            && !self.near.at_most(Single::zero())
            && !self.far.at_most(self.near)
    }

    /// What a check of the camera against a target finds.
    pub open spec fn outcome(self, width: u32, height: u32) -> Result<(), RenderError> {
        if !self.is_valid() {
            Err(RenderError::InvalidCamera)
        } else if width != self.intrinsics.width || height != self.intrinsics.height {
            Err(
                RenderError::CameraDimensionMismatch {
                    camera_width: self.intrinsics.width,
                    camera_height: self.intrinsics.height,
                    render_width: width,
                    render_height: height,
                },
            )
        } else {
            Ok(())
        }
    }

    /// Checks the camera, and that it is calibrated for a target.
    pub fn check(self, width: u32, height: u32) -> (r: Result<(), RenderError>)
        ensures
            r == self.outcome(width, height),
    {
        if !self.is_valid() {
            return Err(RenderError::InvalidCamera);
        }
        if width != self.intrinsics.width || height != self.intrinsics.height {
            return Err(
                RenderError::CameraDimensionMismatch {
                    camera_width: self.intrinsics.width,
                    camera_height: self.intrinsics.height,
                    render_width: width,
                    render_height: height,
                },
            );
        }
        Ok(())
    }

    /// Columns of the projection of the calibration onto its target.
    pub open spec fn spec_projection_columns(self) -> [[Single; 4]; 4] {
        let k = self.intrinsics;
        let width = Single::from_u32(k.width);
        let height = Single::from_u32(k.height);
        let depth_scale = self.far.over(self.near.minus(self.far));
        [
            [
                Single::ratio(2, 1).times(k.fx).over(width),
                Single::zero(),
                Single::zero(),
                Single::zero(),
            ],
            [
                Single::ratio((-2) as i32, 1).times(k.skew).over(width),
                Single::ratio(2, 1).times(k.fy).over(height),
                Single::zero(),
                Single::zero(),
            ],
            [
                Single::one().minus(Single::ratio(2, 1).times(k.cx).over(width)),
                Single::ratio(2, 1).times(k.cy).over(height).minus(Single::one()),
                depth_scale,
                minus_one(),
            ],
            [Single::zero(), Single::zero(), depth_scale.times(self.near), Single::zero()],
        ]
    }

    /// Columns of the projection of the calibration onto its target.
    #[verifier::when_used_as_spec(spec_projection_columns)]
    pub fn projection_columns(self) -> (r: [[Single; 4]; 4])
        ensures
            r == self.spec_projection_columns(),
    {
        let k = self.intrinsics;
        let width = Single::from_u32(k.width);
        let height = Single::from_u32(k.height);
        let depth_scale = self.far.over(self.near.minus(self.far));
        [
            [
                Single::ratio(2, 1).times(k.fx).over(width),
                Single::zero(),
                Single::zero(),
                Single::zero(),
            ],
            [
                Single::ratio((-2) as i32, 1).times(k.skew).over(width),
                Single::ratio(2, 1).times(k.fy).over(height),
                Single::zero(),
                Single::zero(),
            ],
            [
                Single::one().minus(Single::ratio(2, 1).times(k.cx).over(width)),
                Single::ratio(2, 1).times(k.cy).over(height).minus(Single::one()),
                depth_scale,
                minus_one(),
            ],
            [Single::zero(), Single::zero(), depth_scale.times(self.near), Single::zero()],
        ]
    }

    /// Columns of the projection onto a target, where the camera is calibrated for it.
    pub fn projection(self, width: u32, height: u32) -> (r: Result<[[Single; 4]; 4], RenderError>)
        ensures
            r == (match self.outcome(width, height) {
                Ok(()) => Ok(self.projection_columns()),
                Err(error) => Err(error),
            }),
    {
        match self.check(width, height) {
            Ok(()) => Ok(self.projection_columns()),
            Err(error) => Err(error),
        }
    }

    /// Image-space point of a world-space one. `clip` is the product of the projection,
    /// the inverse camera transform and the world-space point.
    ///
    /// This is the basis for keypoint and edge annotations.
    pub fn project(self, clip: [Single; 4], width: u32, height: u32) -> (r: Result<
        ProjectedPoint,
        RenderError,
    >)
        ensures
            r == (if width == 0 || height == 0 {
                Err(RenderError::InvalidDimensions { width, height })
            } else {
                match self.outcome(width, height) {
                    Ok(()) => Ok(projected(clip, width, height)),
                    Err(error) => Err(error),
                }
            }),
    {
        if width == 0 || height == 0 {
            return Err(RenderError::InvalidDimensions { width, height });
        }
        match self.check(width, height) {
            Ok(()) => Ok(projected(clip, width, height)),
            Err(error) => Err(error),
        }
    }

    /// Converts a zero-to-one WGPU depth value back to positive camera-space
    /// distance. This is useful for visibility tests because a fixed epsilon in
    /// nonlinear depth space becomes far too permissive at outdoor distances.
    pub open spec fn spec_linearize_depth(self, depth: Single) -> Option<Single> {
        if !depth.is_finite()
            || !depth.within(Single::zero(), Single::one())
            || !self.near.is_finite()
            || !self.far.is_finite()
            || self.near.at_most(Single::zero())
            || self.far.at_most(self.near) {
            None
        } else {
            Some(self.far.times(self.near).over(
                self.far.minus(depth.times(self.far.minus(self.near))),
            ))
        }
    }

    /// Converts a zero-to-one WGPU depth value back to positive camera-space
    /// distance. This is useful for visibility tests because a fixed epsilon in
    /// nonlinear depth space becomes far too permissive at outdoor distances.
    #[verifier::when_used_as_spec(spec_linearize_depth)]
    pub fn linearize_depth(self, depth: Single) -> (r: Option<Single>)
        ensures
            r == self.spec_linearize_depth(depth),
    {
        if !depth.is_finite()
            || !depth.within(Single::zero(), Single::one())
            || !self.near.is_finite()
            || !self.far.is_finite()
            || self.near.at_most(Single::zero())
            || self.far.at_most(self.near) {
            None
        } else {
            Some(self.far.times(self.near).over(
                self.far.minus(depth.times(self.far.minus(self.near))),
            ))
        }
    }
}

/// One below zero.
pub open spec fn spec_minus_one() -> Single {
    Single::ratio((-1) as i32, 1)
}

/// One below zero.
#[verifier::when_used_as_spec(spec_minus_one)]
pub fn minus_one() -> (r: Single)
    ensures
        r == spec_minus_one(),
{
    Single::ratio((-1) as i32, 1)
}

/// Image-space point of a clip-space one.
pub open spec fn spec_projected(clip: [Single; 4], width: u32, height: u32) -> ProjectedPoint {
    if !clip[0].is_finite()
        || !clip[1].is_finite()
        || !clip[2].is_finite()
        || !clip[3].is_finite()
        || clip[3].at_most(Single::zero()) {
        ProjectedPoint {
            pixel: [not_a_number(), not_a_number()],
            depth: not_a_number(),
            in_frame: false,
        }
    } else {
        let x = clip[0].over(clip[3]);
        let y = clip[1].over(clip[3]);
        let z = clip[2].over(clip[3]);
        ProjectedPoint {
            pixel: [
                x.times(Single::ratio(5, 10)).plus(Single::ratio(5, 10)).times(
                    Single::from_u32(width),
                ),
                Single::ratio(5, 10).minus(y.times(Single::ratio(5, 10))).times(
                    Single::from_u32(height),
                ),
            ],
            depth: z,
            in_frame: x.within(Single::ratio((-1) as i32, 1), Single::one())
                && y.within(Single::ratio((-1) as i32, 1), Single::one())
                && z.within(Single::zero(), Single::one()),
        }
    }
}

/// Image-space point of a clip-space one.
#[verifier::when_used_as_spec(spec_projected)]
pub fn projected(clip: [Single; 4], width: u32, height: u32) -> (r: ProjectedPoint)
    ensures
        r == spec_projected(clip, width, height),
{
    if !clip[0].is_finite()
        || !clip[1].is_finite()
        || !clip[2].is_finite()
        || !clip[3].is_finite()
        || clip[3].at_most(Single::zero()) {
        ProjectedPoint {
            pixel: [not_a_number(), not_a_number()],
            depth: not_a_number(),
            in_frame: false,
        }
    } else {
        let x = clip[0].over(clip[3]);
        let y = clip[1].over(clip[3]);
        let z = clip[2].over(clip[3]);
        ProjectedPoint {
            pixel: [
                x.times(Single::ratio(5, 10)).plus(Single::ratio(5, 10)).times(
                    Single::from_u32(width),
                ),
                Single::ratio(5, 10).minus(y.times(Single::ratio(5, 10))).times(
                    Single::from_u32(height),
                ),
            ],
            depth: z,
            in_frame: x.within(Single::ratio((-1) as i32, 1), Single::one())
                && y.within(Single::ratio((-1) as i32, 1), Single::one())
                && z.within(Single::zero(), Single::one()),
        }
    }
}

/// Appearance and output settings for one render.
#[derive(Clone, Copy, Debug, PartialEq)]
pub struct RenderSettings {
    /// Output width in pixels.
    pub width: u32,
    /// Output height in pixels.
    pub height: u32,
    /// Camera used for all aligned render targets.
    pub camera: RenderCamera,
    /// Linear RGBA roof base colour.
    pub roof_color: [Single; 4],
    /// Linear RGBA exterior wall colour.
    pub wall_color: [Single; 4],
    /// Linear RGBA ground colour.
    pub ground_color: [Single; 4],
    /// Linear RGBA colour for simple generated occluders.
    pub occluder_color: [Single; 4],
    /// Linear RGBA clear colour.
    pub background_color: [Single; 4],
    /// Direction from the surface towards the key light.
    pub light_direction: [Single; 3],
    /// Relative strength of direct sun or moon illumination.
    pub direct_light: Single,
    /// Strength of shadow-independent illumination.
    pub ambient_light: Single,
    /// Sampled physical roughness for the target roof.
    pub roof_roughness: Single,
    /// Sampled physical roughness for the target exterior wall.
    pub wall_roughness: Single,
    /// Sampled physical roughness for the site ground material.
    pub ground_roughness: Single,
}

/// Turns by the angles of the sun.
#[derive(Clone, Copy, Debug, PartialEq)]
pub struct SunTurns {
    /// Turn by the azimuth.
    pub azimuth: Turn,
    /// Turn by the elevation.
    pub elevation: Turn,
}

/// For each material of a building, [`crate::mips::linear_base`] of each
/// [`faded_channel`] to the power 2.4.
#[derive(Clone, Copy, Debug, PartialEq)]
pub struct RaisedColors {
    /// Of the roof.
    pub roof: [Single; 3],
    /// Of the walls.
    pub wall: [Single; 3],
    /// Of the ground, where its material was sampled.
    pub ground: [Single; 3],
}

/// A nonlinear channel of a sampled material after weathering.
pub open spec fn spec_faded_channel(channel: Single, weathering: Single) -> Single {
    channel.plus(
        Single::ratio(5, 10).minus(channel).times(weathering).times(Single::ratio(24, 100)),
    )
}

/// A nonlinear channel of a sampled material after weathering.
#[verifier::when_used_as_spec(spec_faded_channel)]
pub fn faded_channel(channel: Single, weathering: Single) -> (r: Single)
    ensures
        r == spec_faded_channel(channel, weathering),
{
    channel.plus(
        Single::ratio(5, 10).minus(channel).times(weathering).times(Single::ratio(24, 100)),
    )
}

/// Linear colour of a nonlinear one after weathering.
pub open spec fn spec_faded_color(
    color: [Single; 3],
    weathering: Single,
    raised: [Single; 3],
) -> [Single; 4] {
    [
        srgb_to_linear(faded_channel(color[0], weathering), raised[0]),
        srgb_to_linear(faded_channel(color[1], weathering), raised[1]),
        srgb_to_linear(faded_channel(color[2], weathering), raised[2]),
        Single::one(),
    ]
}

/// Linear colour of a nonlinear one after weathering.
#[verifier::when_used_as_spec(spec_faded_color)]
pub fn faded_color(
    color: [Single; 3],
    weathering: Single,
    raised: [Single; 3],
) -> (r: [Single; 4])
    ensures
        r == spec_faded_color(color, weathering, raised),
{
    [
        srgb_to_linear(faded_channel(color[0], weathering), raised[0]),
        srgb_to_linear(faded_channel(color[1], weathering), raised[1]),
        srgb_to_linear(faded_channel(color[2], weathering), raised[2]),
        Single::one(),
    ]
}

/// Linear colour of a sampled material.
pub open spec fn spec_sampled_material_color(
    material: &SampledMaterial,
    raised: [Single; 3],
) -> [Single; 4] {
    faded_color(material.base_color_srgb, material.weathering, raised)
}

/// Linear colour of a sampled material.
#[verifier::when_used_as_spec(spec_sampled_material_color)]
pub fn sampled_material_color(material: &SampledMaterial, raised: [Single; 3]) -> (r: [Single; 4])
    ensures
        r == spec_sampled_material_color(material, raised),
{
    faded_color(material.base_color_srgb, material.weathering, raised)
}

/// Direction towards the sun.
pub open spec fn spec_sun_direction(sun: SunTurns) -> [Single; 3] {
    [
        sun.elevation.cosine.times(sun.azimuth.cosine),
        sun.elevation.sine,
        sun.elevation.cosine.times(sun.azimuth.sine),
    ]
}

/// Direction towards the sun.
#[verifier::when_used_as_spec(spec_sun_direction)]
pub fn sun_direction(sun: SunTurns) -> (r: [Single; 3])
    ensures
        r == spec_sun_direction(sun),
{
    [
        sun.elevation.cosine.times(sun.azimuth.cosine),
        sun.elevation.sine,
        sun.elevation.cosine.times(sun.azimuth.sine),
    ]
}

/// Whether all four numbers are finite.
pub open spec fn spec_finite_color(color: [Single; 4]) -> bool {
    color[0].is_finite() && color[1].is_finite() && color[2].is_finite() && color[3].is_finite()
}

/// Whether all four numbers are finite.
#[verifier::when_used_as_spec(spec_finite_color)]
pub fn finite_color(color: [Single; 4]) -> (r: bool)
    ensures
        r == spec_finite_color(color),
{
    color[0].is_finite() && color[1].is_finite() && color[2].is_finite() && color[3].is_finite()
}

/// Whether a strength is finite and not negative.
pub open spec fn spec_is_strength(value: Single) -> bool {
    value.is_finite() && !value.less(Single::zero())
}

/// Whether a strength is finite and not negative.
#[verifier::when_used_as_spec(spec_is_strength)]
pub fn is_strength(value: Single) -> (r: bool)
    ensures
        r == spec_is_strength(value),
{
    value.is_finite() && !value.less(Single::zero())
}

/// Whether a roughness is between none and all.
pub open spec fn spec_is_roughness(value: Single) -> bool {
    value.is_finite() && value.within(Single::zero(), Single::one())
}

/// Whether a roughness is between none and all.
#[verifier::when_used_as_spec(spec_is_roughness)]
pub fn is_roughness(value: Single) -> (r: bool)
    ensures
        r == spec_is_roughness(value),
{
    value.is_finite() && value.within(Single::zero(), Single::one())
}

impl RenderSettings {
    /// The usual appearance through a camera.
    pub open spec fn spec_standard(camera: RenderCamera) -> RenderSettings {
        RenderSettings {
            width: 640,
            height: 480,
            camera,
            roof_color: [
                Single::ratio(68, 100),
                Single::ratio(35, 1000),
                Single::ratio(25, 1000),
                Single::one(),
            ],
            wall_color: [
                Single::ratio(46, 100),
                Single::ratio(31, 100),
                Single::ratio(2, 10),
                Single::one(),
            ],
            ground_color: [
                Single::ratio(23, 100),
                Single::ratio(25, 100),
                Single::ratio(25, 100),
                Single::one(),
            ],
            occluder_color: [
                Single::ratio(16, 100),
                Single::ratio(27, 100),
                Single::ratio(12, 100),
                Single::one(),
            ],
            background_color: [
                Single::ratio(35, 100),
                Single::ratio(58, 100),
                Single::ratio(82, 100),
                Single::one(),
            ],
            light_direction: [
                Single::ratio((-4) as i32, 10),
                Single::ratio(8, 10),
                Single::ratio(3, 10),
            ],
            direct_light: Single::one(),
            ambient_light: Single::ratio(28, 100),
            roof_roughness: Single::ratio(78, 100),
            wall_roughness: Single::ratio(85, 100),
            ground_roughness: Single::ratio(92, 100),
        }
    }

    /// The usual appearance through a camera.
    #[verifier::when_used_as_spec(spec_standard)]
    pub fn standard(camera: RenderCamera) -> (r: RenderSettings)
        ensures
            r == Self::spec_standard(camera),
    {
        RenderSettings {
            width: 640,
            height: 480,
            camera,
            roof_color: [
                Single::ratio(68, 100),
                Single::ratio(35, 1000),
                Single::ratio(25, 1000),
                Single::one(),
            ],
            wall_color: [
                Single::ratio(46, 100),
                Single::ratio(31, 100),
                Single::ratio(2, 10),
                Single::one(),
            ],
            ground_color: [
                Single::ratio(23, 100),
                Single::ratio(25, 100),
                Single::ratio(25, 100),
                Single::one(),
            ],
            occluder_color: [
                Single::ratio(16, 100),
                Single::ratio(27, 100),
                Single::ratio(12, 100),
                Single::one(),
            ],
            background_color: [
                Single::ratio(35, 100),
                Single::ratio(58, 100),
                Single::ratio(82, 100),
                Single::one(),
            ],
            light_direction: [
                Single::ratio((-4) as i32, 10),
                Single::ratio(8, 10),
                Single::ratio(3, 10),
            ],
            direct_light: Single::one(),
            ambient_light: Single::ratio(28, 100),
            roof_roughness: Single::ratio(78, 100),
            wall_roughness: Single::ratio(85, 100),
            ground_roughness: Single::ratio(92, 100),
        }
    }

    /// Whether every colour, light and roughness can be used.
    pub open spec fn spec_has_appearance(self) -> bool {
        finite_color(self.roof_color) && finite_color(self.wall_color) && finite_color(
            self.ground_color,
        ) && finite_color(self.occluder_color) && finite_color(self.background_color)
            && crate::scene::all_finite(self.light_direction) && is_roughness(self.roof_roughness)
            && is_roughness(self.wall_roughness) && is_roughness(self.ground_roughness)
            && is_strength(self.direct_light) && is_strength(self.ambient_light)
    }

    /// Whether every colour, light and roughness can be used.
    #[verifier::when_used_as_spec(spec_has_appearance)]
    pub fn has_appearance(self) -> (r: bool)
        ensures
            r == self.spec_has_appearance(),
    {
        finite_color(self.roof_color) && finite_color(self.wall_color) && finite_color(
            self.ground_color,
        ) && finite_color(self.occluder_color) && finite_color(self.background_color)
            && crate::scene::all_finite(self.light_direction) && is_roughness(self.roof_roughness)
            && is_roughness(self.wall_roughness) && is_roughness(self.ground_roughness)
            && is_strength(self.direct_light) && is_strength(self.ambient_light)
    }

    /// What a check of the settings finds.
    pub open spec fn outcome(self) -> Result<(), RenderError> {
        if self.width == 0 || self.height == 0 {
            Err(RenderError::InvalidDimensions { width: self.width, height: self.height })
        } else if !self.has_appearance() {
            Err(RenderError::InvalidAppearance)
        } else {
            Ok(())
        }
    }

    /// Creates the canonical render settings for a sampled scene and camera.
    ///
    /// Sampled sun and sky values remain absolute renderer intensities. They are
    /// deliberately not converted to a ratio, so changing either magnitude has
    /// the expected photometric effect without changing the other.
    pub fn from_sampled(
        scene: &SampledScene,
        camera: CameraModel,
        sun: SunTurns,
        raised: RaisedColors,
    ) -> (r: Result<RenderSettings, RenderError>)
        ensures
            ({
                let made = sampled_settings(scene, camera, sun, raised);
                r == (if has_effects(camera) {
                    Err(RenderError::UnsupportedCameraEffects)
                } else if !RenderCamera::of_model(camera).is_valid() {
                    Err(RenderError::InvalidCamera)
                } else {
                    match made.outcome() {
                        Ok(()) => Ok(made),
                        Err(error) => Err(error),
                    }
                })
            }),
    {
        let render_camera = match RenderCamera::from_camera_model(camera) {
            Ok(made) => made,
            Err(error) => {
                return Err(error);
            },
        };
        let ground_color = match &scene.composition.ground_material {
            Some(material) => sampled_material_color(material, raised.ground),
            None => bare_ground_color(),
        };
        let ground_roughness = match &scene.composition.ground_material {
            Some(material) => material.roughness,
            None => bare_ground_roughness(),
        };
        let settings = RenderSettings {
            width: camera.intrinsics.width,
            height: camera.intrinsics.height,
            camera: render_camera,
            roof_color: sampled_material_color(&scene.roof_material, raised.roof),
            wall_color: sampled_material_color(&scene.wall_material, raised.wall),
            ground_color,
            occluder_color: occluder_color(),
            background_color: sky_color(),
            light_direction: sun_direction(sun),
            direct_light: scene.lighting.sun_intensity,
            ambient_light: scene.lighting.sky_intensity,
            roof_roughness: scene.roof_material.roughness,
            wall_roughness: scene.wall_material.roughness,
            ground_roughness,
        };
        match validate_settings(&settings) {
            Ok(()) => Ok(settings),
            Err(error) => Err(error),
        }
    }
}

/// Colour of ground whose material was not sampled.
pub open spec fn spec_bare_ground_color() -> [Single; 4] {
    [Single::ratio(22, 100), Single::ratio(23, 100), Single::ratio(21, 100), Single::one()]
}

/// Colour of ground whose material was not sampled.
#[verifier::when_used_as_spec(spec_bare_ground_color)]
pub fn bare_ground_color() -> (r: [Single; 4])
    ensures
        r == spec_bare_ground_color(),
{
    [Single::ratio(22, 100), Single::ratio(23, 100), Single::ratio(21, 100), Single::one()]
}

/// Roughness of ground whose material was not sampled.
pub open spec fn spec_bare_ground_roughness() -> Single {
    Single::ratio(92, 100)
}

/// Roughness of ground whose material was not sampled.
#[verifier::when_used_as_spec(spec_bare_ground_roughness)]
pub fn bare_ground_roughness() -> (r: Single)
    ensures
        r == spec_bare_ground_roughness(),
{
    Single::ratio(92, 100)
}

/// Colour of simple objects in sampled scenes.
pub open spec fn spec_occluder_color() -> [Single; 4] {
    [Single::ratio(12, 100), Single::ratio(25, 100), Single::ratio(9, 100), Single::one()]
}

/// Colour of simple objects in sampled scenes.
#[verifier::when_used_as_spec(spec_occluder_color)]
pub fn occluder_color() -> (r: [Single; 4])
    ensures
        r == spec_occluder_color(),
{
    [Single::ratio(12, 100), Single::ratio(25, 100), Single::ratio(9, 100), Single::one()]
}

/// Clear colour of sampled scenes.
pub open spec fn spec_sky_color() -> [Single; 4] {
    [Single::ratio(34, 100), Single::ratio(57, 100), Single::ratio(82, 100), Single::one()]
}

/// Clear colour of sampled scenes.
#[verifier::when_used_as_spec(spec_sky_color)]
pub fn sky_color() -> (r: [Single; 4])
    ensures
        r == spec_sky_color(),
{
    [Single::ratio(34, 100), Single::ratio(57, 100), Single::ratio(82, 100), Single::one()]
}

/// The settings of a sampled scene seen by a camera.
pub open spec fn sampled_settings(
    scene: &SampledScene,
    camera: CameraModel,
    sun: SunTurns,
    raised: RaisedColors,
) -> RenderSettings {
    RenderSettings {
        width: camera.intrinsics.width,
        height: camera.intrinsics.height,
        camera: RenderCamera::of_model(camera),
        roof_color: sampled_material_color(&scene.roof_material, raised.roof),
        wall_color: sampled_material_color(&scene.wall_material, raised.wall),
        ground_color: match scene.composition.ground_material {
            Some(material) => sampled_material_color(&material, raised.ground),
            None => bare_ground_color(),
        },
        occluder_color: occluder_color(),
        background_color: sky_color(),
        light_direction: sun_direction(sun),
        direct_light: scene.lighting.sun_intensity,
        ambient_light: scene.lighting.sky_intensity,
        roof_roughness: scene.roof_material.roughness,
        wall_roughness: scene.wall_material.roughness,
        ground_roughness: match scene.composition.ground_material {
            Some(material) => material.roughness,
            None => bare_ground_roughness(),
        },
    }
}

/// Checks the settings of a render.
pub fn validate_settings(settings: &RenderSettings) -> (r: Result<(), RenderError>)
    ensures
        r == settings.outcome(),
{
    if settings.width == 0 || settings.height == 0 {
        return Err(
            RenderError::InvalidDimensions { width: settings.width, height: settings.height },
        );
    }
    if !settings.has_appearance() {
        return Err(RenderError::InvalidAppearance);
    }
    Ok(())
}

/// What a check of a render against a device finds.
pub open spec fn render_outcome(
    mesh: &RenderMesh,
    settings: RenderSettings,
    maximum_dimension: u32,
) -> Result<(), RenderError> {
    if mesh@.outcome() is Err {
        mesh@.outcome()
    } else if settings.outcome() is Err {
        settings.outcome()
    } else if settings.width > maximum_dimension || settings.height > maximum_dimension {
        Err(
            RenderError::DimensionsExceedDeviceLimit {
                width: settings.width,
                height: settings.height,
                maximum: maximum_dimension,
            },
        )
    } else {
        Ok(())
    }
}

/// Checks a mesh and settings before anything is put on a device of a largest extent.
pub fn check_render(
    mesh: &RenderMesh,
    settings: &RenderSettings,
    maximum_dimension: u32,
) -> (r: Result<(), RenderError>)
    ensures
        r == render_outcome(mesh, *settings, maximum_dimension),
{
    match mesh.validate() {
        Ok(()) => {},
        Err(error) => {
            return Err(error);
        },
    }
    match validate_settings(settings) {
        Ok(()) => {},
        Err(error) => {
            return Err(error);
        },
    }
    if settings.width > maximum_dimension || settings.height > maximum_dimension {
        return Err(
            RenderError::DimensionsExceedDeviceLimit {
                width: settings.width,
                height: settings.height,
                maximum: maximum_dimension,
            },
        );
    }
    Ok(())
}

/// Whether a vertex stands above the ground and throws a shadow.
pub open spec fn spec_throws_shadow(vertex: RenderVertex) -> bool {
    vertex.material != MaterialSlot::Ground && vertex.material != MaterialSlot::Asphalt
        && vertex.material != MaterialSlot::Marking
}

/// Whether a vertex stands above the ground and throws a shadow.
#[verifier::when_used_as_spec(spec_throws_shadow)]
pub fn throws_shadow(vertex: RenderVertex) -> (r: bool)
    ensures
        r == spec_throws_shadow(vertex),
{
    vertex.material != MaterialSlot::Ground && vertex.material != MaterialSlot::Asphalt
        && vertex.material != MaterialSlot::Marking
}

/// The smaller of two numbers, the second where they cannot be compared.
pub open spec fn spec_lesser(a: Single, b: Single) -> Single {
    if a.less(b) {
        a
    } else {
        b
    }
}

/// The smaller of two numbers, the second where they cannot be compared.
#[verifier::when_used_as_spec(spec_lesser)]
pub fn lesser(a: Single, b: Single) -> (r: Single)
    ensures
        r == spec_lesser(a, b),
{
    if a.less(b) {
        a
    } else {
        b
    }
}

/// The larger of two numbers, the second where they cannot be compared.
pub open spec fn spec_greater(a: Single, b: Single) -> Single {
    if b.less(a) {
        a
    } else {
        b
    }
}

/// The larger of two numbers, the second where they cannot be compared.
#[verifier::when_used_as_spec(spec_greater)]
pub fn greater(a: Single, b: Single) -> (r: Single)
    ensures
        r == spec_greater(a, b),
{
    if b.less(a) {
        a
    } else {
        b
    }
}

/// Lowest coordinates of two points.
pub open spec fn spec_lower_corner(a: [Single; 3], b: [Single; 3]) -> [Single; 3] {
    [lesser(a[0], b[0]), lesser(a[1], b[1]), lesser(a[2], b[2])]
}

/// Lowest coordinates of two points.
#[verifier::when_used_as_spec(spec_lower_corner)]
pub fn lower_corner(a: [Single; 3], b: [Single; 3]) -> (r: [Single; 3])
    ensures
        r == spec_lower_corner(a, b),
{
    [lesser(a[0], b[0]), lesser(a[1], b[1]), lesser(a[2], b[2])]
}

/// Highest coordinates of two points.
pub open spec fn spec_upper_corner(a: [Single; 3], b: [Single; 3]) -> [Single; 3] {
    [greater(a[0], b[0]), greater(a[1], b[1]), greater(a[2], b[2])]
}

/// Highest coordinates of two points.
#[verifier::when_used_as_spec(spec_upper_corner)]
pub fn upper_corner(a: [Single; 3], b: [Single; 3]) -> (r: [Single; 3])
    ensures
        r == spec_upper_corner(a, b),
{
    [greater(a[0], b[0]), greater(a[1], b[1]), greater(a[2], b[2])]
}

/// Lowest coordinates of the first `n` vertices that throw shadows.
pub open spec fn shadow_low(vertices: Seq<RenderVertex>, n: int) -> [Single; 3]
    decreases n,
{
    if n <= 0 {
        [Single::infinity(), Single::infinity(), Single::infinity()]
    } else if throws_shadow(vertices[n - 1]) {
        lower_corner(shadow_low(vertices, n - 1), vertices[n - 1].position)
    } else {
        shadow_low(vertices, n - 1)
    }
}

/// Highest coordinates of the first `n` vertices that throw shadows.
pub open spec fn shadow_high(vertices: Seq<RenderVertex>, n: int) -> [Single; 3]
    decreases n,
{
    if n <= 0 {
        [
            Single::infinity().negated(),
            Single::infinity().negated(),
            Single::infinity().negated(),
        ]
    } else if throws_shadow(vertices[n - 1]) {
        upper_corner(shadow_high(vertices, n - 1), vertices[n - 1].position)
    } else {
        shadow_high(vertices, n - 1)
    }
}

/// Where the shadow of a mesh is seen from.
#[derive(Clone, Copy, Debug, PartialEq)]
pub struct LightFrame {
    /// Middle of what throws shadows.
    pub center: [Single; 3],
    /// Half extent of the shadow view.
    pub radius: Single,
    /// Unit direction towards the light.
    pub light: [Single; 3],
    /// Up direction of the shadow view.
    pub up: [Single; 3],
    /// Where the shadow view looks from.
    pub eye: [Single; 3],
}

/// Up direction for a view along a light.
pub open spec fn spec_light_up(light: [Single; 3]) -> [Single; 3] {
    if Single::ratio(96, 100).less(dot(light, world_up()).abs()) {
        [Single::zero(), Single::zero(), Single::one()]
    } else {
        world_up()
    }
}

/// Up direction for a view along a light.
#[verifier::when_used_as_spec(spec_light_up)]
pub fn light_up(light: [Single; 3]) -> (r: [Single; 3])
    ensures
        r == spec_light_up(light),
{
    if Single::ratio(96, 100).less(dot(light, world_up()).abs()) {
        [Single::zero(), Single::zero(), Single::one()]
    } else {
        world_up()
    }
}

/// The shadow view of what lies between two corners.
pub open spec fn spec_light_frame_of(
    low: [Single; 3],
    high: [Single; 3],
    light: [Single; 3],
) -> LightFrame {
    let half = Single::ratio(5, 10);
    let center = scaled(moved(low, high), half);
    let extent = offset(high, low);
    let radius = dot(extent, extent).root().times(Single::ratio(65, 100)).max(Single::ratio(5, 1));
    LightFrame {
        center,
        radius,
        light,
        up: light_up(light),
        eye: moved(center, scaled(scaled(light, radius), Single::ratio(25, 10))),
    }
}

/// The shadow view of what lies between two corners.
#[verifier::when_used_as_spec(spec_light_frame_of)]
pub fn light_frame_of(low: [Single; 3], high: [Single; 3], light: [Single; 3]) -> (r: LightFrame)
    ensures
        r == spec_light_frame_of(low, high, light),
{
    let half = Single::ratio(5, 10);
    let center = scaled(moved(low, high), half);
    let extent = offset(high, low);
    let radius = dot(extent, extent).root().times(Single::ratio(65, 100)).max(Single::ratio(5, 1));
    LightFrame {
        center,
        radius,
        light,
        up: light_up(light),
        eye: moved(center, scaled(scaled(light, radius), Single::ratio(25, 10))),
    }
}

/// What comes of looking for the shadow view of a mesh.
pub open spec fn light_outcome(vertices: Seq<RenderVertex>, light_direction: [Single; 3]) -> Result<
    LightFrame,
    RenderError,
> {
    let low = shadow_low(vertices, vertices.len() as int);
    let high = shadow_high(vertices, vertices.len() as int);
    let light = unit_or_zero(light_direction);
    if !crate::scene::all_finite(low) || !crate::scene::all_finite(high) {
        Err(RenderError::InvalidSceneDescription)
    } else if is_zero(light) {
        Err(RenderError::InvalidLight)
    } else {
        Ok(light_frame_of(low, high, light))
    }
}

/// Finds the shadow view of a mesh.
pub fn light_frame(mesh: &RenderMesh, settings: &RenderSettings) -> (r: Result<
    LightFrame,
    RenderError,
>)
    ensures
        r == light_outcome(mesh.vertices@, settings.light_direction),
{
    let mut low = [Single::infinity(), Single::infinity(), Single::infinity()];
    let mut high = [
        Single::infinity().negated(),
        Single::infinity().negated(),
        Single::infinity().negated(),
    ];
    let mut i: usize = 0;
    while i < mesh.vertices.len()
        invariant
            i <= mesh.vertices@.len(),
            low == shadow_low(mesh.vertices@, i as int),
            high == shadow_high(mesh.vertices@, i as int),
        decreases mesh.vertices@.len() - i,
    {
        let vertex = mesh.vertices[i];
        if throws_shadow(vertex) {
            low = lower_corner(low, vertex.position);
            high = upper_corner(high, vertex.position);
        }
        i = i + 1;
    }
    if !crate::scene::all_finite(low) || !crate::scene::all_finite(high) {
        return Err(RenderError::InvalidSceneDescription);
    }
    let light = unit_or_zero(settings.light_direction);
    if is_zero(light) {
        return Err(RenderError::InvalidLight);
    }
    Ok(light_frame_of(low, high, light))
}

/// What a render knows of its prepared textures.
#[derive(Clone, Debug, PartialEq)]
pub struct PreparedTextures {
    /// Layers that are filled.
    pub material_mask: u32,
    /// Texture repetitions of every layer.
    pub material_uv_tiling: Vec<[Single; 4]>,
    /// Whether there is an environment image.
    pub has_environment: bool,
    /// Smallest copy of the environment image.
    pub environment_max_lod: u32,
    /// Factor that restores the radiance of the environment image.
    pub environment_radiance_scale: Single,
}

/// Numbers that one render hands to its shader.
#[derive(Clone, Debug, PartialEq)]
pub struct SceneUniform {
    /// Columns of the camera view projection.
    pub view_projection: [[Single; 4]; 4],
    /// Columns of its inverse.
    pub inverse_view_projection: [[Single; 4]; 4],
    /// Columns of the shadow view projection.
    pub light_view_projection: [[Single; 4]; 4],
    /// Linear roof colour.
    pub roof_color: [Single; 4],
    /// Linear wall colour.
    pub wall_color: [Single; 4],
    /// Linear ground colour.
    pub ground_color: [Single; 4],
    /// Linear colour of simple objects.
    pub occluder_color: [Single; 4],
    /// Linear clear colour.
    pub background_color: [Single; 4],
    /// Unit direction towards the light, and its strength.
    pub light_direction: [Single; 4],
    /// Camera position.
    pub camera_position: [Single; 4],
    /// Ambient strength, emission, cloud cover and haze.
    pub lighting: [Single; 4],
    /// Environment exposure, seed, shadow softness and ground wetness.
    pub environment: [Single; 4],
    /// Exposure and colour temperature.
    pub color_grading: [Single; 4],
    /// Visibility, environment yaw, weather and radiance scale.
    pub atmosphere: [Single; 4],
    /// Roughness of roof, walls and ground, and the smallest environment copy.
    pub material_roughness: [Single; 4],
    /// Positions and ranges of local lights.
    pub local_light_positions: [[Single; 4]; 4],
    /// Colours and intensities of local lights.
    pub local_light_colors: [[Single; 4]; 4],
    /// Texture repetitions of every layer.
    pub material_uv_tiling: Vec<[Single; 4]>,
    /// Texture layer of every slot.
    pub material_layers: [[u32; 4]; 4],
    /// Treatment of every slot.
    pub material_patterns: [[u32; 4]; 4],
    /// Filled layers, environment image, local lights and domain.
    pub texture_flags: [u32; 4],
}

/// Position and range of a local light.
pub open spec fn spec_light_position_row(light: SceneLight) -> [Single; 4] {
    [light.position[0], light.position[1], light.position[2], light.range_m]
}

/// Position and range of a local light.
#[verifier::when_used_as_spec(spec_light_position_row)]
pub fn light_position_row(light: SceneLight) -> (r: [Single; 4])
    ensures
        r == spec_light_position_row(light),
{
    [light.position[0], light.position[1], light.position[2], light.range_m]
}

/// Colour and intensity of a local light.
pub open spec fn spec_light_color_row(light: SceneLight) -> [Single; 4] {
    [light.color[0], light.color[1], light.color[2], light.intensity]
}

/// Colour and intensity of a local light.
#[verifier::when_used_as_spec(spec_light_color_row)]
pub fn light_color_row(light: SceneLight) -> (r: [Single; 4])
    ensures
        r == spec_light_color_row(light),
{
    [light.color[0], light.color[1], light.color[2], light.intensity]
}

/// Position and range of a local light, or nothing where there is none.
pub open spec fn position_row(lights: Seq<SceneLight>, i: int) -> [Single; 4] {
    if i < lights.len() {
        light_position_row(lights[i])
    } else {
        crate::shapes::untinted()
    }
}

/// Colour and intensity of a local light, or nothing where there is none.
pub open spec fn color_row(lights: Seq<SceneLight>, i: int) -> [Single; 4] {
    if i < lights.len() {
        light_color_row(lights[i])
    } else {
        crate::shapes::untinted()
    }
}

fn find_position_row(lights: &Vec<SceneLight>, i: usize) -> (r: [Single; 4])
    ensures
        r == position_row(lights@, i as int),
{
    if i < lights.len() {
        light_position_row(lights[i])
    } else {
        crate::shapes::untinted()
    }
}

fn find_color_row(lights: &Vec<SceneLight>, i: usize) -> (r: [Single; 4])
    ensures
        r == color_row(lights@, i as int),
{
    if i < lights.len() {
        light_color_row(lights[i])
    } else {
        crate::shapes::untinted()
    }
}

/// Sixteen numbers in four rows.
pub open spec fn spec_rows_of(values: [u32; 16]) -> [[u32; 4]; 4] {
    [
        [values[0], values[1], values[2], values[3]],
        [values[4], values[5], values[6], values[7]],
        [values[8], values[9], values[10], values[11]],
        [values[12], values[13], values[14], values[15]],
    ]
}

/// Sixteen numbers in four rows.
#[verifier::when_used_as_spec(spec_rows_of)]
pub fn rows_of(values: [u32; 16]) -> (r: [[u32; 4]; 4])
    ensures
        r == spec_rows_of(values),
{
    [
        [values[0], values[1], values[2], values[3]],
        [values[4], values[5], values[6], values[7]],
        [values[8], values[9], values[10], values[11]],
        [values[12], values[13], values[14], values[15]],
    ]
}

/// Shader numbers of sixteen treatments.
pub open spec fn spec_pattern_codes(patterns: [crate::surface::SurfacePattern; 16]) -> [u32; 16] {
    [
        patterns[0].as_u32(),
        patterns[1].as_u32(),
        patterns[2].as_u32(),
        patterns[3].as_u32(),
        patterns[4].as_u32(),
        patterns[5].as_u32(),
        patterns[6].as_u32(),
        patterns[7].as_u32(),
        patterns[8].as_u32(),
        patterns[9].as_u32(),
        patterns[10].as_u32(),
        patterns[11].as_u32(),
        patterns[12].as_u32(),
        patterns[13].as_u32(),
        patterns[14].as_u32(),
        patterns[15].as_u32(),
    ]
}

/// Shader numbers of sixteen treatments.
#[verifier::when_used_as_spec(spec_pattern_codes)]
pub fn pattern_codes(patterns: [crate::surface::SurfacePattern; 16]) -> (r: [u32; 16])
    ensures
        r == spec_pattern_codes(patterns),
{
    [
        patterns[0].as_u32(),
        patterns[1].as_u32(),
        patterns[2].as_u32(),
        patterns[3].as_u32(),
        patterns[4].as_u32(),
        patterns[5].as_u32(),
        patterns[6].as_u32(),
        patterns[7].as_u32(),
        patterns[8].as_u32(),
        patterns[9].as_u32(),
        patterns[10].as_u32(),
        patterns[11].as_u32(),
        patterns[12].as_u32(),
        patterns[13].as_u32(),
        patterns[14].as_u32(),
        patterns[15].as_u32(),
    ]
}

/// Shader number of a domain.
pub open spec fn spec_domain_code(domain: EnvironmentDomain) -> u32 {
    match domain {
        EnvironmentDomain::City => 0,
        EnvironmentDomain::Urban => 1,
        EnvironmentDomain::Remote => 2,
    }
}

/// Shader number of a domain.
#[verifier::when_used_as_spec(spec_domain_code)]
pub fn domain_code(domain: EnvironmentDomain) -> (r: u32)
    ensures
        r == spec_domain_code(domain),
{
    match domain {
        EnvironmentDomain::City => 0,
        EnvironmentDomain::Urban => 1,
        EnvironmentDomain::Remote => 2,
    }
}

/// Shader number of a weather.
pub open spec fn spec_weather_code(weather: WeatherAppearance) -> Single {
    match weather {
        WeatherAppearance::Clear => Single::zero(),
        WeatherAppearance::PartlyCloudy => Single::one(),
        WeatherAppearance::Overcast => Single::ratio(2, 1),
        WeatherAppearance::Hazy => Single::ratio(3, 1),
        WeatherAppearance::AfterRain => Single::ratio(4, 1),
    }
}

/// Shader number of a weather.
#[verifier::when_used_as_spec(spec_weather_code)]
pub fn weather_code(weather: WeatherAppearance) -> (r: Single)
    ensures
        r == spec_weather_code(weather),
{
    match weather {
        WeatherAppearance::Clear => Single::zero(),
        WeatherAppearance::PartlyCloudy => Single::one(),
        WeatherAppearance::Overcast => Single::ratio(2, 1),
        WeatherAppearance::Hazy => Single::ratio(3, 1),
        WeatherAppearance::AfterRain => Single::ratio(4, 1),
    }
}

/// The matrices of one render.
#[derive(Clone, Copy, Debug, PartialEq)]
pub struct ViewMatrices {
    /// Columns of the camera view projection.
    pub view_projection: [[Single; 4]; 4],
    /// Columns of its inverse.
    pub inverse_view_projection: [[Single; 4]; 4],
    /// Columns of the shadow view projection.
    pub light_view_projection: [[Single; 4]; 4],
}

impl SceneUniform {
    /// Whether this holds the numbers of a render.
    pub open spec fn describes(
        &self,
        settings: RenderSettings,
        mesh: &RenderMesh,
        textures: &PreparedTextures,
        matrices: ViewMatrices,
    ) -> bool {
        let environment = mesh.environment;
        let light = unit_or_zero(settings.light_direction);
        let position = settings.camera.position();
        let zero = Single::zero();
        &&& self.view_projection == matrices.view_projection
        &&& self.inverse_view_projection == matrices.inverse_view_projection
        &&& self.light_view_projection == matrices.light_view_projection
        &&& self.roof_color == settings.roof_color
        &&& self.wall_color == settings.wall_color
        &&& self.ground_color == settings.ground_color
        &&& self.occluder_color == settings.occluder_color
        &&& self.background_color == settings.background_color
        &&& self.light_direction == [light[0], light[1], light[2], settings.direct_light]
        &&& self.camera_position == [position[0], position[1], position[2], Single::one()]
        &&& self.lighting == [
            settings.ambient_light,
            environment.time_of_day.emission_scale(),
            environment.cloud_cover,
            environment.haze,
        ]
        &&& self.environment == [
            environment.environment_exposure,
            Single::from_u32(environment.seed),
            environment.shadow_softness,
            environment.ground_wetness,
        ]
        &&& self.color_grading == [
            environment.exposure_ev,
            environment.color_temperature_kelvin,
            zero,
            zero,
        ]
        &&& self.atmosphere == [
            environment.visibility_km,
            environment.environment_yaw_radians,
            weather_code(environment.weather),
            textures.environment_radiance_scale,
        ]
        &&& self.material_roughness == [
            settings.roof_roughness,
            settings.wall_roughness,
            settings.ground_roughness,
            Single::from_u32(textures.environment_max_lod),
        ]
        &&& self.local_light_positions == [
            position_row(mesh.lights@, 0),
            position_row(mesh.lights@, 1),
            position_row(mesh.lights@, 2),
            position_row(mesh.lights@, 3),
        ]
        &&& self.local_light_colors == [
            color_row(mesh.lights@, 0),
            color_row(mesh.lights@, 1),
            color_row(mesh.lights@, 2),
            color_row(mesh.lights@, 3),
        ]
        &&& self.material_uv_tiling@ == textures.material_uv_tiling@
        &&& self.material_layers == rows_of(mesh.materials.layers())
        &&& self.material_patterns == rows_of(pattern_codes(mesh.materials.patterns()))
        &&& self.texture_flags == [
            textures.material_mask,
            if textures.has_environment { 1u32 } else { 0u32 },
            mesh.lights@.len() as u32,
            domain_code(environment.domain),
        ]
    }

    /// Gathers the numbers of a render.
    pub fn new(
        settings: &RenderSettings,
        mesh: &RenderMesh,
        textures: &PreparedTextures,
        matrices: ViewMatrices,
    ) -> (r: Result<SceneUniform, RenderError>)
        requires
            mesh.lights@.len() <= MAX_LIGHTS,
        ensures
            ({
                let found = settings.camera.outcome(settings.width, settings.height);
                &&& found is Err ==> r is Err && r->Err_0 == found->Err_0
                &&& found is Ok && is_zero(unit_or_zero(settings.light_direction)) ==> r is Err
                    && r->Err_0 == RenderError::InvalidLight
                &&& found is Ok && !is_zero(unit_or_zero(settings.light_direction)) ==> r is Ok
                    && r->Ok_0.describes(*settings, mesh, textures, matrices)
            }),
    {
        match settings.camera.check(settings.width, settings.height) {
            Ok(()) => {},
            Err(error) => {
                return Err(error);
            },
        }
        let light = unit_or_zero(settings.light_direction);
        if is_zero(light) {
            return Err(RenderError::InvalidLight);
        }
        let environment = mesh.environment;
        let position = settings.camera.position();
        let zero = Single::zero();
        Ok(
            SceneUniform {
                view_projection: matrices.view_projection,
                inverse_view_projection: matrices.inverse_view_projection,
                light_view_projection: matrices.light_view_projection,
                roof_color: settings.roof_color,
                wall_color: settings.wall_color,
                ground_color: settings.ground_color,
                occluder_color: settings.occluder_color,
                background_color: settings.background_color,
                light_direction: [light[0], light[1], light[2], settings.direct_light],
                camera_position: [position[0], position[1], position[2], Single::one()],
                lighting: [
                    settings.ambient_light,
                    environment.time_of_day.emission_scale(),
                    environment.cloud_cover,
                    environment.haze,
                ],
                environment: [
                    environment.environment_exposure,
                    Single::from_u32(environment.seed),
                    environment.shadow_softness,
                    environment.ground_wetness,
                ],
                color_grading: [
                    environment.exposure_ev,
                    environment.color_temperature_kelvin,
                    zero,
                    zero,
                ],
                atmosphere: [
                    environment.visibility_km,
                    environment.environment_yaw_radians,
                    weather_code(environment.weather),
                    textures.environment_radiance_scale,
                ],
                material_roughness: [
                    settings.roof_roughness,
                    settings.wall_roughness,
                    settings.ground_roughness,
                    Single::from_u32(textures.environment_max_lod),
                ],
                local_light_positions: [
                    find_position_row(&mesh.lights, 0),
                    find_position_row(&mesh.lights, 1),
                    find_position_row(&mesh.lights, 2),
                    find_position_row(&mesh.lights, 3),
                ],
                local_light_colors: [
                    find_color_row(&mesh.lights, 0),
                    find_color_row(&mesh.lights, 1),
                    find_color_row(&mesh.lights, 2),
                    find_color_row(&mesh.lights, 3),
                ],
                material_uv_tiling: copy_rows(&textures.material_uv_tiling),
                material_layers: rows_of(mesh.materials.layers()),
                material_patterns: rows_of(pattern_codes(mesh.materials.patterns())),
                texture_flags: [
                    textures.material_mask,
                    if textures.has_environment { 1u32 } else { 0u32 },
                    mesh.lights.len() as u32,
                    domain_code(environment.domain),
                ],
            },
        )
    }
}

fn copy_rows(rows: &Vec<[Single; 4]>) -> (r: Vec<[Single; 4]>)
    ensures
        r@ == rows@,
{
    let mut r: Vec<[Single; 4]> = Vec::new();
    let mut i: usize = 0;
    while i < rows.len()
        invariant
            i <= rows@.len(),
            r@ == rows@.take(i as int),
        decreases rows@.len() - i,
    {
        r.push(rows[i]);
        proof {
            assert(r@ =~= rows@.take(i + 1));
        }
        i = i + 1;
    }
    assert(rows@.take(i as int) =~= rows@);
    r
}

/// Sampled light is absolute: neither strength changes with the other, nor with the
/// camera or any colour.
pub proof fn sampled_light_is_absolute(
    scene: &SampledScene,
    camera: CameraModel,
    sun: SunTurns,
    raised: RaisedColors,
)
    ensures
        sampled_settings(scene, camera, sun, raised).direct_light == scene.lighting.sun_intensity,
        sampled_settings(scene, camera, sun, raised).ambient_light
            == scene.lighting.sky_intensity,
        sampled_settings(scene, camera, sun, raised).roof_roughness
            == scene.roof_material.roughness,
        sampled_settings(scene, camera, sun, raised).wall_roughness
            == scene.wall_material.roughness,
{
}

/// A camera that looks nowhere, or straight up or down, is never valid.
pub proof fn aimless_cameras_are_refused(
    position: [Single; 3],
    target: [Single; 3],
    rotation_xyzw: [Single; 4],
    width: u32,
    height: u32,
    tan_half_fov: Single,
)
    requires
        view_axes(position, target) is None,
    ensures
        !RenderCamera::look_at(
            position,
            target,
            rotation_xyzw,
            width,
            height,
            tan_half_fov,
        ).is_valid(),
{
    assert(not_a_number().is_nan());
    assert(!not_a_number().is_finite());
}

/// A point counts as in the frame only where its pixel coordinates could be computed.
pub proof fn points_in_frame_are_in_front(clip: [Single; 4], width: u32, height: u32)
    requires
        projected(clip, width, height).in_frame,
    ensures
        !clip[3].at_most(Single::zero()),
        clip[3].is_finite(),
{
}

} // verus!
