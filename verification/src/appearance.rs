//! Portable metadata describing how a rendered frame became model-input RGB.

use crate::composition::DayPhase;
use crate::single::Single;
use vstd::prelude::*;
use vstd::string::*;

verus! {

/// Current serialized photometric-profile schema.
pub const PHOTOMETRIC_PROFILE_VERSION: u32 = 1;

/// Exact, deterministic phone-camera appearance parameters applied to one frame.
///
/// Pixel transforms live in producer tooling, while dataset labels retain the
/// values needed to audit or replay the transform independently.
#[derive(Clone, Copy, Debug, PartialEq, Eq)]
pub struct PhotometricProfile {
    /// Version of the serialized profile contract.
    pub schema_version: u32,
    /// Capture-time regime that selected the sensor-response ranges.
    pub day_phase: DayPhase,
    /// Stable caller-provided seed used to sample this profile.
    pub seed: u64,
    /// Residual automatic-exposure correction in photographic stops.
    pub exposure_compensation_stops: Single,
    /// Per-channel linear RGB gains representing residual white balance.
    pub white_balance_rgb: [Single; 3],
    /// Additional green-channel multiplier representing sensor tint error.
    pub tint_green: Single,
    /// Display-response contrast around middle grey.
    pub response_contrast: Single,
    /// Strength of the highlight shoulder in the linear response curve.
    pub response_shoulder: Single,
    /// Relative falloff from the optical centre towards image corners.
    pub vignette_strength: Single,
    /// Exponent controlling how close to the frame edge vignetting appears.
    pub vignette_power: Single,
    /// Signal-dependent noise coefficient in linear RGB units.
    pub shot_noise_stddev: Single,
    /// Signal-independent noise floor in linear RGB units.
    pub read_noise_stddev: Single,
    /// Amount of a small, display-space unsharp mask.
    pub sharpening_amount: Single,
    /// Strength of the local highlight bloom contribution.
    pub bloom_strength: Single,
    /// Linear luminance at which highlight bloom begins.
    pub bloom_threshold: Single,
    /// JPEG quality selected for encoding this frame, in `86..=96`.
    pub jpeg_quality: u8,
    /// Independent stable seed for the per-pixel sensor noise stream.
    pub noise_seed: u64,
}

/// Why a serialized photometric profile cannot be accepted.
#[derive(Clone, Copy, Debug, PartialEq, Eq)]
pub enum PhotometricProfileValidationError {
    /// The profile uses a schema newer or older than this crate understands.
    UnsupportedSchemaVersion(u32),
    /// The named field is non-finite or outside its supported bounds.
    InvalidValue(&'static str),
}

/// The value is finite and inside `[low / 100, high / 100]`.
pub open spec fn spec_bounded(value: Single, low: i32, high: i32) -> bool {
    value.is_finite() && value.within(Single::ratio(low, 100), Single::ratio(high, 100))
}

/// Whether the value is finite and inside `[low / 100, high / 100]`.
#[verifier::when_used_as_spec(spec_bounded)]
pub fn bounded(value: Single, low: i32, high: i32) -> (r: bool)
    ensures
        r == spec_bounded(value, low, high),
{
    value.is_finite() && value.within(Single::ratio(low, 100), Single::ratio(high, 100))
}

impl PhotometricProfile {
    /// The first field that makes a profile unacceptable, if any.
    pub open spec fn defect(self) -> Option<Seq<char>> {
        if self.schema_version != PHOTOMETRIC_PROFILE_VERSION {
            Some("schema_version"@)
        } else if !bounded(self.exposure_compensation_stops, (-100) as i32, 100) {
            Some("exposure_compensation_stops"@)
        } else if !bounded(self.white_balance_rgb@[0], 75, 125) {
            Some("white_balance_rgb"@)
        } else if !bounded(self.white_balance_rgb@[1], 75, 125) {
            Some("white_balance_rgb"@)
        } else if !bounded(self.white_balance_rgb@[2], 75, 125) {
            Some("white_balance_rgb"@)
        } else if !bounded(self.tint_green, 90, 110) {
            Some("tint_green"@)
        } else if !bounded(self.response_contrast, 80, 120) {
            Some("response_contrast"@)
        } else if !bounded(self.response_shoulder, 0, 100) {
            Some("response_shoulder"@)
        } else if !bounded(self.vignette_strength, 0, 50) {
            Some("vignette_strength"@)
        } else if !bounded(self.vignette_power, 50, 400) {
            Some("vignette_power"@)
        } else if !bounded(self.shot_noise_stddev, 0, 10) {
            Some("shot_noise_stddev"@)
        } else if !bounded(self.read_noise_stddev, 0, 10) {
            Some("read_noise_stddev"@)
        } else if !bounded(self.sharpening_amount, 0, 50) {
            Some("sharpening_amount"@)
        } else if !bounded(self.bloom_strength, 0, 20) {
            Some("bloom_strength"@)
        } else if !bounded(self.bloom_threshold, 50, 200) {
            Some("bloom_threshold"@)
        } else if !(86 <= self.jpeg_quality <= 96) {
            Some("jpeg_quality"@)
        } else {
            None
        }
    }

    /// The sentence that reports the first unacceptable field.
    pub open spec fn defect_text(self) -> Seq<char> {
        if self.schema_version != PHOTOMETRIC_PROFILE_VERSION {
            PhotometricProfileValidationError::UnsupportedSchemaVersion(self.schema_version).text()
        } else {
            "photometric profile has invalid "@ + self.defect()->0
        }
    }

    /// Checks that every parameter is finite, supported, and safely bounded.
    pub fn validate(&self) -> (r: Result<(), PhotometricProfileValidationError>)
        ensures
            r is Ok <==> self.defect() is None,
            r matches Err(error) ==> error.field_text() == self.defect()->0,
            r matches Err(PhotometricProfileValidationError::UnsupportedSchemaVersion(version))
                ==> version == self.schema_version,
            (r matches Err(PhotometricProfileValidationError::UnsupportedSchemaVersion(_)))
                <==> self.schema_version != PHOTOMETRIC_PROFILE_VERSION,
    {
        if self.schema_version != PHOTOMETRIC_PROFILE_VERSION {
            return Err(
                PhotometricProfileValidationError::UnsupportedSchemaVersion(self.schema_version),
            );
        }
        if !bounded(self.exposure_compensation_stops, -100, 100) {
            return Err(
                PhotometricProfileValidationError::InvalidValue("exposure_compensation_stops"),
            );
        }
        if !bounded(self.white_balance_rgb[0], 75, 125) {
            return Err(PhotometricProfileValidationError::InvalidValue("white_balance_rgb"));
        }
        if !bounded(self.white_balance_rgb[1], 75, 125) {
            return Err(PhotometricProfileValidationError::InvalidValue("white_balance_rgb"));
        }
        if !bounded(self.white_balance_rgb[2], 75, 125) {
            return Err(PhotometricProfileValidationError::InvalidValue("white_balance_rgb"));
        }
        if !bounded(self.tint_green, 90, 110) {
            return Err(PhotometricProfileValidationError::InvalidValue("tint_green"));
        }
        if !bounded(self.response_contrast, 80, 120) {
            return Err(PhotometricProfileValidationError::InvalidValue("response_contrast"));
        }
        if !bounded(self.response_shoulder, 0, 100) {
            return Err(PhotometricProfileValidationError::InvalidValue("response_shoulder"));
        }
        if !bounded(self.vignette_strength, 0, 50) {
            return Err(PhotometricProfileValidationError::InvalidValue("vignette_strength"));
        }
        if !bounded(self.vignette_power, 50, 400) {
            return Err(PhotometricProfileValidationError::InvalidValue("vignette_power"));
        }
        if !bounded(self.shot_noise_stddev, 0, 10) {
            return Err(PhotometricProfileValidationError::InvalidValue("shot_noise_stddev"));
        }
        if !bounded(self.read_noise_stddev, 0, 10) {
            return Err(PhotometricProfileValidationError::InvalidValue("read_noise_stddev"));
        }
        if !bounded(self.sharpening_amount, 0, 50) {
            return Err(PhotometricProfileValidationError::InvalidValue("sharpening_amount"));
        }
        if !bounded(self.bloom_strength, 0, 20) {
            return Err(PhotometricProfileValidationError::InvalidValue("bloom_strength"));
        }
        if !bounded(self.bloom_threshold, 50, 200) {
            return Err(PhotometricProfileValidationError::InvalidValue("bloom_threshold"));
        }
        if self.jpeg_quality < 86 || self.jpeg_quality > 96 {
            return Err(PhotometricProfileValidationError::InvalidValue("jpeg_quality"));
        }
        Ok(())
    }
}

impl PhotometricProfileValidationError {
    /// Name of the field responsible for the error.
    pub open spec fn field_text(self) -> Seq<char> {
        match self {
            PhotometricProfileValidationError::UnsupportedSchemaVersion(_) => "schema_version"@,
            PhotometricProfileValidationError::InvalidValue(field) => field@,
        }
    }

    /// The text of each error.
    pub open spec fn text(self) -> Seq<char> {
        match self {
            PhotometricProfileValidationError::UnsupportedSchemaVersion(version) => {
                "unsupported photometric profile schema version "@ + crate::text::decimal(
                    version as int,
                ) + "; expected "@ + crate::text::decimal(PHOTOMETRIC_PROFILE_VERSION as int)
            },
            PhotometricProfileValidationError::InvalidValue(field) => {
                "photometric profile has invalid "@ + field@
            },
        }
    }

    /// Field within `PhotometricProfile` responsible for the error.
    pub fn field(&self) -> (r: &'static str)
        ensures
            r@ == self.field_text(),
    {
        match self {
            PhotometricProfileValidationError::UnsupportedSchemaVersion(_) => "schema_version",
            PhotometricProfileValidationError::InvalidValue(field) => field,
        }
    }

    /// A sentence for people.
    pub fn message(&self) -> (r: String)
        ensures
            r@ == self.text(),
    {
        match self {
            PhotometricProfileValidationError::UnsupportedSchemaVersion(version) => {
                let mut r: String = "unsupported photometric profile schema version ".to_owned();
                crate::text::push_decimal(&mut r, *version as u64);
                r.append("; expected ");
                crate::text::push_decimal(&mut r, PHOTOMETRIC_PROFILE_VERSION as u64);
                r
            },
            PhotometricProfileValidationError::InvalidValue(field) => {
                crate::text::joined("photometric profile has invalid ", field)
            },
        }
    }
}

/// Optional appearance transforms applied after geometry-aligned rendering.
#[derive(Clone, Copy, Debug, PartialEq, Eq)]
pub struct FrameAppearance {
    /// Exact phone-camera profile used to produce stored RGB, when applied.
    pub photometric_profile: Option<PhotometricProfile>,
}

impl Default for FrameAppearance {
    fn default() -> (r: Self)
        ensures
            r.photometric_profile is None,
    {
        FrameAppearance { photometric_profile: None }
    }
}

impl FrameAppearance {
    /// Returns `true` when no post-render appearance transform is recorded.
    pub fn is_empty(&self) -> (r: bool)
        ensures
            r == (self.photometric_profile is None),
    {
        self.photometric_profile.is_none()
    }
}

} // verus!
