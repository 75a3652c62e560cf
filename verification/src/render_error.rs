//! Reasons for which rendering input is refused.

use crate::text::push_decimal;
use vstd::prelude::*;

verus! {

/// Errors found in render input before anything reaches a device.
#[derive(Clone, Copy, Debug, PartialEq, Eq, Structural)]
pub enum RenderError {
    /// The output dimensions were empty.
    InvalidDimensions {
        /// Requested width.
        width: u32,
        /// Requested height.
        height: u32,
    },
    /// Dimensions exceed the selected device's maximum 2D texture extent.
    DimensionsExceedDeviceLimit {
        /// Requested width.
        width: u32,
        /// Requested height.
        height: u32,
        /// Maximum width or height supported by the device.
        maximum: u32,
    },
    /// Row alignment or staging-buffer size could not be represented safely.
    ReadbackLayoutOverflow,
    /// Camera projection or look-at parameters were invalid.
    InvalidCamera,
    /// Camera calibration dimensions differ from the requested target.
    CameraDimensionMismatch {
        /// Width carried by the camera intrinsics.
        camera_width: u32,
        /// Height carried by the camera intrinsics.
        camera_height: u32,
        /// Requested render width.
        render_width: u32,
        /// Requested render height.
        render_height: u32,
    },
    /// The native renderer was given geometric image effects it does not yet apply.
    UnsupportedCameraEffects,
    /// Lighting direction had no usable magnitude.
    InvalidLight,
    /// Appearance values were non-finite or outside their supported range.
    InvalidAppearance,
    /// No vertices were supplied.
    EmptyMesh,
    /// Indices did not form a non-empty triangle list.
    InvalidIndexCount(usize),
    /// An index referred beyond the supplied vertex array.
    IndexOutOfBounds {
        /// Invalid index.
        index: u32,
        /// Number of supplied vertices.
        vertex_count: usize,
    },
    /// At least one vertex attribute was not finite.
    NonFiniteVertex,
    /// Building or ground dimensions could not produce a valid scene shell.
    InvalidSceneDimensions,
    /// A procedural scene object, environment, or light was invalid.
    InvalidSceneDescription,
    /// Decoded texture dimensions, pixels, slots, or UV controls were invalid.
    InvalidTextureData,
    /// Maps belonging to one PBR material did not share dimensions.
    TextureDimensionMismatch,
}

impl RenderError {
    /// What the error says.
    pub open spec fn text(self) -> Seq<char> {
        match self {
            RenderError::InvalidDimensions { width, height } => {
                "invalid render dimensions "@
                    + crate::text::decimal(width as int)
                    + "x"@
                    + crate::text::decimal(height as int)
            },
            RenderError::DimensionsExceedDeviceLimit { width, height, maximum } => {
                "render dimensions "@
                    + crate::text::decimal(width as int)
                    + "x"@
                    + crate::text::decimal(height as int)
                    + " exceed device limit "@
                    + crate::text::decimal(maximum as int)
            },
            RenderError::ReadbackLayoutOverflow => "render readback layout overflowed"@,
            RenderError::InvalidCamera => "invalid render camera"@,
            RenderError::CameraDimensionMismatch { camera_width, camera_height, render_width, render_height } => {
                "camera calibration is "@
                    + crate::text::decimal(camera_width as int)
                    + "x"@
                    + crate::text::decimal(camera_height as int)
                    + ", but render target is "@
                    + crate::text::decimal(render_width as int)
                    + "x"@
                    + crate::text::decimal(render_height as int)
            },
            RenderError::UnsupportedCameraEffects => "camera distortion or output transform is not supported by this render path"@,
            RenderError::InvalidLight => "invalid light direction"@,
            RenderError::InvalidAppearance => "invalid appearance settings"@,
            RenderError::EmptyMesh => "render mesh has no vertices"@,
            RenderError::InvalidIndexCount(count) => {
                "render mesh index count "@
                    + crate::text::decimal(count as int)
                    + " is not a non-empty triangle list"@
            },
            RenderError::IndexOutOfBounds { index, vertex_count } => {
                "mesh index "@
                    + crate::text::decimal(index as int)
                    + " exceeds vertex count "@
                    + crate::text::decimal(vertex_count as int)
            },
            RenderError::NonFiniteVertex => "render mesh contains a non-finite vertex attribute"@,
            RenderError::InvalidSceneDimensions => "invalid building or ground dimensions"@,
            RenderError::InvalidSceneDescription => "invalid procedural scene description"@,
            RenderError::InvalidTextureData => "invalid decoded texture data"@,
            RenderError::TextureDimensionMismatch => "PBR material maps must share identical dimensions"@,
        }
    }

    /// What the error says.
    pub fn message(&self) -> (r: String)
        ensures
            r@ == self.text(),
    {
        let mut r = String::new();
        match *self {
            RenderError::InvalidDimensions { width, height } => {
                r.append("invalid render dimensions ");
                push_decimal(&mut r, width as u64);
                r.append("x");
                push_decimal(&mut r, height as u64);
            },
            RenderError::DimensionsExceedDeviceLimit { width, height, maximum } => {
                r.append("render dimensions ");
                push_decimal(&mut r, width as u64);
                r.append("x");
                push_decimal(&mut r, height as u64);
                r.append(" exceed device limit ");
                push_decimal(&mut r, maximum as u64);
            },
            RenderError::ReadbackLayoutOverflow => {
                r.append("render readback layout overflowed");
            },
            RenderError::InvalidCamera => {
                r.append("invalid render camera");
            },
            RenderError::CameraDimensionMismatch { camera_width, camera_height, render_width, render_height } => {
                r.append("camera calibration is ");
                push_decimal(&mut r, camera_width as u64);
                r.append("x");
                push_decimal(&mut r, camera_height as u64);
                r.append(", but render target is ");
                push_decimal(&mut r, render_width as u64);
                r.append("x");
                push_decimal(&mut r, render_height as u64);
            },
            RenderError::UnsupportedCameraEffects => {
                r.append(
                    "camera distortion or output transform is not supported by this render path",
                );
            },
            RenderError::InvalidLight => {
                r.append("invalid light direction");
            },
            RenderError::InvalidAppearance => {
                r.append("invalid appearance settings");
            },
            RenderError::EmptyMesh => {
                r.append("render mesh has no vertices");
            },
            RenderError::InvalidIndexCount(count) => {
                r.append("render mesh index count ");
                push_decimal(&mut r, count as u64);
                r.append(" is not a non-empty triangle list");
            },
            RenderError::IndexOutOfBounds { index, vertex_count } => {
                r.append("mesh index ");
                push_decimal(&mut r, index as u64);
                r.append(" exceeds vertex count ");
                push_decimal(&mut r, vertex_count as u64);
            },
            RenderError::NonFiniteVertex => {
                r.append("render mesh contains a non-finite vertex attribute");
            },
            RenderError::InvalidSceneDimensions => {
                r.append("invalid building or ground dimensions");
            },
            RenderError::InvalidSceneDescription => {
                r.append("invalid procedural scene description");
            },
            RenderError::InvalidTextureData => {
                r.append("invalid decoded texture data");
            },
            RenderError::TextureDimensionMismatch => {
                r.append("PBR material maps must share identical dimensions");
            },
        }
        r
    }
}

} // verus!
