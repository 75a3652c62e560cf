//! Decoded textures and environment images, and what is computed from them before upload.

use crate::render_error::RenderError;
use crate::sample_site::tau;
use crate::single::Single;
use crate::surface::MAX_TEXTURE_LAYERS;
use vstd::prelude::*;

verus! {

/// Stable physical layer within prepared PBR texture arrays.
#[derive(Clone, Copy, Debug, PartialEq, Eq, PartialOrd, Ord, Hash)]
pub struct MaterialTextureLayer {
    layer: u32,
}

impl MaterialTextureLayer {
    #[verifier::type_invariant]
    spec fn in_range(self) -> bool {
        self.layer < MAX_TEXTURE_LAYERS
    }

    /// Returns the physical texture-array layer.
    pub closed spec fn spec_get(self) -> u32 {
        self.layer
    }

    /// Creates an in-range texture layer identifier.
    pub fn new(layer: u32) -> (r: Result<Self, RenderError>)
        ensures
            r is Ok <==> layer < MAX_TEXTURE_LAYERS,
            r matches Ok(made) ==> made.get() == layer,
            r matches Err(error) ==> error == RenderError::InvalidTextureData,
    {
        if layer >= MAX_TEXTURE_LAYERS {
            return Err(RenderError::InvalidTextureData);
        }
        Ok(MaterialTextureLayer { layer })
    }

    /// Returns the physical texture-array layer.
    #[verifier::when_used_as_spec(spec_get)]
    pub fn get(self) -> (r: u32)
        ensures
            r == self.spec_get(),
            r < MAX_TEXTURE_LAYERS,
    {
        proof {
            use_type_invariant(&self);
        }
        self.layer
    }
}

/// Whether a store holds exactly the values of an image that is not empty.
pub open spec fn counted(
    width: u32,
    height: u32,
    actual_values: int,
    values_per_pixel: int,
) -> bool {
    &&& width > 0
    &&& height > 0
    &&& values_per_pixel > 0
    &&& width * height * values_per_pixel == actual_values
}

/// Checks that a store holds exactly the values of an image that is not empty.
pub fn validate_pixel_count(
    width: u32,
    height: u32,
    actual_values: usize,
    values_per_pixel: usize,
) -> (r: Result<(), RenderError>)
    ensures
        r == (if counted(width, height, actual_values as int, values_per_pixel as int) {
            Ok::<(), RenderError>(())
        } else {
            Err(RenderError::InvalidTextureData)
        }),
{
    if width == 0 || height == 0 || values_per_pixel == 0 {
        return Err(RenderError::InvalidTextureData);
    }
    proof {
        assert(width * height <= 0xffff_ffff * 0xffff_ffff) by (nonlinear_arith)
            requires
                width <= 0xffff_ffff,
                height <= 0xffff_ffff,
        ;
        assert(width * height >= 1) by (nonlinear_arith)
            requires
                width > 0,
                height > 0,
        ;
    }
    let pixels: u64 = width as u64 * height as u64;
    proof {
        assert(pixels * values_per_pixel <= 0xffff_ffff_ffff_ffff * 0xffff_ffff_ffff_ffff)
            by (nonlinear_arith)
            requires
                pixels <= 0xffff_ffff_ffff_ffff,
                values_per_pixel <= 0xffff_ffff_ffff_ffff,
        ;
    }
    let expected: u128 = pixels as u128 * values_per_pixel as u128;
    if expected != actual_values as u128 {
        return Err(RenderError::InvalidTextureData);
    }
    Ok(())
}

/// Decoded RGBA8 image supplied by the tool layer.
#[derive(Clone, Debug, PartialEq, Eq)]
pub struct Rgba8Image {
    /// Image width in pixels.
    pub width: u32,
    /// Image height in pixels.
    pub height: u32,
    /// Tightly packed row-major RGBA bytes.
    pub pixels: Vec<u8>,
}

impl Rgba8Image {
    /// The image holds four bytes for each of its pixels, and a row's bytes can be counted.
    pub open spec fn sound(&self) -> bool {
        &&& counted(self.width, self.height, self.pixels@.len() as int, 4)
        &&& self.width * 4 <= u32::MAX
    }

    /// Creates a decoded image after checking dimensions and byte count.
    pub fn new(width: u32, height: u32, pixels: Vec<u8>) -> (r: Result<Self, RenderError>)
        ensures
            r is Ok <==> (Rgba8Image { width, height, pixels }).sound(),
            r matches Ok(image) ==> image == (Rgba8Image { width, height, pixels }),
            r matches Err(error) ==> error == RenderError::InvalidTextureData,
    {
        let image = Rgba8Image { width, height, pixels };
        match image.validate() {
            Ok(()) => Ok(image),
            Err(error) => Err(error),
        }
    }

    /// Revalidates dimensions and backing storage after public-field mutation.
    pub fn validate(&self) -> (r: Result<(), RenderError>)
        ensures
            r == (if self.sound() {
                Ok::<(), RenderError>(())
            } else {
                Err(RenderError::InvalidTextureData)
            }),
    {
        match validate_pixel_count(self.width, self.height, self.pixels.len(), 4) {
            Ok(()) => {},
            Err(error) => {
                return Err(error);
            },
        }
        if self.width > 0x3fff_ffff {
            return Err(RenderError::InvalidTextureData);
        }
        Ok(())
    }
}

/// Decoded linear floating-point equirectangular environment image.
#[derive(Clone, Debug, PartialEq)]
pub struct EquirectangularImage {
    /// Image width in pixels.
    pub width: u32,
    /// Image height in pixels.
    pub height: u32,
    /// Tightly packed row-major linear RGBA pixels.
    pub pixels: Vec<[Single; 4]>,
}

/// Finite radiance that is not negative, under an alpha between none and all.
pub open spec fn spec_radiant(pixel: [Single; 4]) -> bool {
    pixel[0].is_finite()
        && !pixel[0].less(Single::zero())
        && pixel[1].is_finite()
        && !pixel[1].less(Single::zero())
        && pixel[2].is_finite()
        && !pixel[2].less(Single::zero())
        && pixel[3].is_finite()
        && pixel[3].within(Single::zero(), Single::one())
}

/// Finite radiance that is not negative, under an alpha between none and all.
#[verifier::when_used_as_spec(spec_radiant)]
pub fn radiant(pixel: [Single; 4]) -> (r: bool)
    ensures
        r == spec_radiant(pixel),
{
    pixel[0].is_finite()
        && !pixel[0].less(Single::zero())
        && pixel[1].is_finite()
        && !pixel[1].less(Single::zero())
        && pixel[2].is_finite()
        && !pixel[2].less(Single::zero())
        && pixel[3].is_finite()
        && pixel[3].within(Single::zero(), Single::one())
}

/// Perceived brightness of a linear pixel.
pub open spec fn spec_hdr_luminance(pixel: [Single; 4]) -> Single {
    pixel[0].times(Single::ratio(2126, 10000)).plus(
        pixel[1].times(Single::ratio(7152, 10000)),
    ).plus(pixel[2].times(Single::ratio(722, 10000)))
}

/// Perceived brightness of a linear pixel.
#[verifier::when_used_as_spec(spec_hdr_luminance)]
pub fn hdr_luminance(pixel: [Single; 4]) -> (r: Single)
    ensures
        r == spec_hdr_luminance(pixel),
{
    pixel[0].times(Single::ratio(2126, 10000)).plus(
        pixel[1].times(Single::ratio(7152, 10000)),
    ).plus(pixel[2].times(Single::ratio(722, 10000)))
}

/// The index of the brightest pixel, the last one where several are.
pub open spec fn brightest(pixels: Seq<[Single; 4]>, index: int) -> bool {
    &&& 0 <= index < pixels.len()
    &&& forall|i: int|
        0 <= i < pixels.len() ==> !hdr_luminance(pixels[index]).precedes(
            hdr_luminance(#[trigger] pixels[i]),
        )
    &&& forall|i: int|
        index < i < pixels.len() ==> hdr_luminance(#[trigger] pixels[i]).precedes(
            hdr_luminance(pixels[index]),
        )
}

/// No two pixels are the brightest one.
pub proof fn one_pixel_is_the_brightest(pixels: Seq<[Single; 4]>, a: int, b: int)
    requires
        brightest(pixels, a),
        brightest(pixels, b),
    ensures
        a == b,
{
    let first = hdr_luminance(pixels[a]);
    let second = hdr_luminance(pixels[b]);
    assert(!first.precedes(second) && !second.precedes(first));
}

/// Half of a full turn.
pub open spec fn spec_pi() -> Single {
    Single { bits: 0x4049_0fdb }
}

/// Half of a full turn.
#[verifier::when_used_as_spec(spec_pi)]
pub fn pi() -> (r: Single)
    ensures
        r == spec_pi(),
{
    Single { bits: 0x4049_0fdb }
}

/// Longitude of the centre of a column; the centre of the image has none.
pub open spec fn spec_column_longitude(column: u32, width: u32) -> Single {
    let x = Single::from_u32(column).plus(Single::ratio(5, 10));
    x.over(Single::from_u32(width)).minus(Single::ratio(5, 10)).times(tau())
}

/// Longitude of the centre of a column; the centre of the image has none.
#[verifier::when_used_as_spec(spec_column_longitude)]
pub fn column_longitude(column: u32, width: u32) -> (r: Single)
    ensures
        r == spec_column_longitude(column, width),
{
    let x = Single::from_u32(column).plus(Single::ratio(5, 10));
    x.over(Single::from_u32(width)).minus(Single::ratio(5, 10)).times(tau())
}

/// An angle moved by whole turns into the half turns on both sides of zero.
pub open spec fn spec_wrap_angle(angle: Single) -> Single {
    angle.plus(pi()).rem_euclid(tau()).minus(pi())
}

/// An angle moved by whole turns into the half turns on both sides of zero.
#[verifier::when_used_as_spec(spec_wrap_angle)]
pub fn wrap_angle(angle: Single) -> (r: Single)
    ensures
        r == spec_wrap_angle(angle),
{
    angle.plus(pi()).rem_euclid(tau()).minus(pi())
}

impl EquirectangularImage {
    /// The image holds one radiant pixel for each place, and a row's bytes can be counted.
    pub open spec fn sound(&self) -> bool {
        &&& counted(self.width, self.height, self.pixels@.len() as int, 1)
        &&& self.width * 8 <= u32::MAX
        &&& forall|i: int| 0 <= i < self.pixels@.len() ==> radiant(#[trigger] self.pixels@[i])
    }

    /// Creates an environment image after checking dimensions and radiance pixels.
    pub fn new(width: u32, height: u32, pixels: Vec<[Single; 4]>) -> (r: Result<Self, RenderError>)
        ensures
            r is Ok <==> (EquirectangularImage { width, height, pixels }).sound(),
            r matches Ok(image) ==> image == (EquirectangularImage { width, height, pixels }),
            r matches Err(error) ==> error == RenderError::InvalidTextureData,
    {
        let image = EquirectangularImage { width, height, pixels };
        match image.validate() {
            Ok(()) => Ok(image),
            Err(error) => Err(error),
        }
    }

    /// Revalidates dimensions, finite non-negative radiance, and bounded alpha.
    ///
    /// RGB values may exceed the range of half precision. Preparation applies one
    /// loss-minimising scale to the complete panorama and restores that scale in
    /// the shader, preserving relative HDR radiance rather than clamping it.
    pub fn validate(&self) -> (r: Result<(), RenderError>)
        ensures
            r == (if self.sound() {
                Ok::<(), RenderError>(())
            } else {
                Err(RenderError::InvalidTextureData)
            }),
    {
        match validate_pixel_count(self.width, self.height, self.pixels.len(), 1) {
            Ok(()) => {},
            Err(error) => {
                return Err(error);
            },
        }
        if self.width > 0x1fff_ffff {
            return Err(RenderError::InvalidTextureData);
        }
        let mut i: usize = 0;
        while i < self.pixels.len()
            invariant
                i <= self.pixels@.len(),
                forall|j: int| 0 <= j < i ==> radiant(#[trigger] self.pixels@[j]),
            decreases self.pixels@.len() - i,
        {
            if !radiant(self.pixels[i]) {
                return Err(RenderError::InvalidTextureData);
            }
            i = i + 1;
        }
        Ok(())
    }

    /// Longitude of the brightest luminance sample in equirectangular space.
    ///
    /// Longitude zero corresponds to the panorama's centre column, matching the
    /// renderer's equirectangular lookup convention.
    pub fn dominant_light_longitude_radians(&self) -> (r: Result<Single, RenderError>)
        ensures
            r is Ok <==> self.sound(),
            r matches Ok(longitude) ==> exists|index: int|
                {
                    &&& #[trigger] brightest(self.pixels@, index)
                    &&& longitude == column_longitude(
                        (index % self.width as int) as u32,
                        self.width,
                    )
                },
            r matches Err(error) ==> error == RenderError::InvalidTextureData,
    {
        match self.validate() {
            Ok(()) => {},
            Err(error) => {
                return Err(error);
            },
        }
        proof {
            assert(self.width * self.height >= 1) by (nonlinear_arith)
                requires
                    self.width > 0,
                    self.height > 0,
            ;
        }
        let mut index: usize = 0;
        let mut i: usize = 1;
        while i < self.pixels.len()
            invariant
                index < i <= self.pixels@.len(),
                brightest(self.pixels@.take(i as int), index as int),
            decreases self.pixels@.len() - i,
        {
            let ghost seen = self.pixels@.take(i as int);
            let ghost more = self.pixels@.take(i + 1);
            proof {
                assert(forall|j: int| 0 <= j < i ==> seen[j] == more[j]);
                assert(more[i as int] == self.pixels@[i as int]);
            }
            if !hdr_luminance(self.pixels[i]).precedes(hdr_luminance(self.pixels[index])) {
                proof {
                    let new = hdr_luminance(more[i as int]);
                    assert forall|j: int| 0 <= j < more.len() implies !new.precedes(
                        hdr_luminance(#[trigger] more[j]),
                    ) by {
                        if j < i {
                            assert(!hdr_luminance(seen[index as int]).precedes(
                                hdr_luminance(seen[j]),
                            ));
                        }
                    }
                }
                index = i;
            } else {
                proof {
                    let top = hdr_luminance(more[index as int]);
                    assert forall|j: int| 0 <= j < more.len() implies !top.precedes(
                        hdr_luminance(#[trigger] more[j]),
                    ) by {
                        if j < i {
                            assert(!hdr_luminance(seen[index as int]).precedes(
                                hdr_luminance(seen[j]),
                            ));
                        }
                    }
                    assert forall|j: int| index < j < more.len() implies hdr_luminance(
                        #[trigger] more[j],
                    ).precedes(top) by {
                        if j < i {
                            assert(hdr_luminance(seen[j]).precedes(
                                hdr_luminance(seen[index as int]),
                            ));
                        }
                    }
                }
            }
            i = i + 1;
        }
        proof {
            assert(self.pixels@.take(i as int) =~= self.pixels@);
        }
        let column: usize = index % self.width as usize;
        Ok(column_longitude(column as u32, self.width))
    }

    /// Environment yaw that places the dominant panorama light at a world azimuth.
    pub fn yaw_to_align_dominant_light(
        &self,
        world_azimuth_radians: Single,
    ) -> (r: Result<Single, RenderError>)
        ensures
            r is Ok <==> self.sound() && world_azimuth_radians.is_finite(),
            r matches Ok(yaw) ==> exists|index: int|
                {
                    &&& #[trigger] brightest(self.pixels@, index)
                    &&& yaw == wrap_angle(
                        column_longitude((index % self.width as int) as u32, self.width).minus(
                            world_azimuth_radians,
                        ),
                    )
                },
            r matches Err(error) ==> error == RenderError::InvalidTextureData,
    {
        if !world_azimuth_radians.is_finite() {
            return Err(RenderError::InvalidTextureData);
        }
        match self.dominant_light_longitude_radians() {
            Ok(longitude) => Ok(wrap_angle(longitude.minus(world_azimuth_radians))),
            Err(error) => Err(error),
        }
    }
}

/// Albedo, normal, and ambient-roughness-metallic maps for one physical layer.
#[derive(Clone, Debug, PartialEq)]
pub struct MaterialTextureSet {
    /// Physical layer, independent from a scene's logical material slots.
    pub layer: MaterialTextureLayer,
    /// Nonlinear sRGB base-colour map with a required fully opaque alpha channel.
    ///
    /// The renderer is entirely opaque and does not implement cutout or
    /// blended material pipelines, so accepting non-opaque albedo would silently
    /// discard authored coverage.
    pub albedo: Rgba8Image,
    /// Linear tangent-space normal map.
    pub normal: Rgba8Image,
    /// Linear ambient-occlusion, roughness, metallic, and unused channels.
    pub arm: Rgba8Image,
    /// Horizontal and vertical repetitions over each geometry UV domain.
    pub uv_tiling: [Single; 2],
}

/// Every pixel of an RGBA store is fully opaque.
pub open spec fn opaque(pixels: Seq<u8>) -> bool {
    forall|i: int| 0 <= i < pixels.len() && i % 4 == 3 ==> #[trigger] pixels[i] == 255
}

/// A repetition that is finite and positive.
pub open spec fn spec_tiles(value: Single) -> bool {
    value.is_finite() && !value.at_most(Single::zero())
}

/// A repetition that is finite and positive.
#[verifier::when_used_as_spec(spec_tiles)]
pub fn tiles(value: Single) -> (r: bool)
    ensures
        r == spec_tiles(value),
{
    value.is_finite() && !value.at_most(Single::zero())
}

impl MaterialTextureSet {
    /// What a check of the maps and UV controls finds.
    pub open spec fn outcome(&self) -> Result<(), RenderError> {
        if !self.albedo.sound() || !self.normal.sound() || !self.arm.sound() {
            Err(RenderError::InvalidTextureData)
        } else if self.albedo.width != self.normal.width || self.albedo.height
            != self.normal.height || self.albedo.width != self.arm.width || self.albedo.height
            != self.arm.height {
            Err(RenderError::TextureDimensionMismatch)
        } else if !opaque(self.albedo.pixels@) || !tiles(self.uv_tiling[0]) || !tiles(
            self.uv_tiling[1],
        ) {
            Err(RenderError::InvalidTextureData)
        } else {
            Ok(())
        }
    }

    /// Creates one complete PBR material set.
    pub fn new(
        layer: MaterialTextureLayer,
        albedo: Rgba8Image,
        normal: Rgba8Image,
        arm: Rgba8Image,
        uv_tiling: [Single; 2],
    ) -> (r: Result<Self, RenderError>)
        ensures
            r == (match (MaterialTextureSet { layer, albedo, normal, arm, uv_tiling }).outcome() {
                Ok(()) => Ok(MaterialTextureSet { layer, albedo, normal, arm, uv_tiling }),
                Err(error) => Err(error),
            }),
    {
        let material = MaterialTextureSet { layer, albedo, normal, arm, uv_tiling };
        match material.validate() {
            Ok(()) => Ok(material),
            Err(error) => Err(error),
        }
    }

    /// Revalidates all maps and UV controls after public-field mutation.
    pub fn validate(&self) -> (r: Result<(), RenderError>)
        ensures
            r == self.outcome(),
    {
        let maps_hold = self.albedo.validate().is_ok() && self.normal.validate().is_ok()
            && self.arm.validate().is_ok();
        if !maps_hold {
            return Err(RenderError::InvalidTextureData);
        }
        if self.albedo.width != self.normal.width || self.albedo.height != self.normal.height
            || self.albedo.width != self.arm.width || self.albedo.height != self.arm.height {
            return Err(RenderError::TextureDimensionMismatch);
        }
        let mut i: usize = 0;
        while i < self.albedo.pixels.len()
            invariant
                i <= self.albedo.pixels@.len(),
                self.albedo.sound(),
                self.normal.sound(),
                self.arm.sound(),
                self.albedo.width == self.normal.width,
                self.albedo.height == self.normal.height,
                self.albedo.width == self.arm.width,
                self.albedo.height == self.arm.height,
                forall|j: int|
                    0 <= j < i && j % 4 == 3 ==> #[trigger] self.albedo.pixels@[j] == 255,
            decreases self.albedo.pixels@.len() - i,
        {
            if i % 4 == 3 && self.albedo.pixels[i] != 255 {
                return Err(RenderError::InvalidTextureData);
            }
            i = i + 1;
        }
        if !tiles(self.uv_tiling[0]) || !tiles(self.uv_tiling[1]) {
            return Err(RenderError::InvalidTextureData);
        }
        Ok(())
    }
}

/// Optional decoded image assets for one renderer configuration.
#[derive(Clone, Debug, PartialEq)]
pub struct RenderAssetBundle {
    /// Physical texture layers later mapped from logical material roles.
    pub materials: Vec<MaterialTextureSet>,
    /// Equirectangular sky/background image; procedural sky remains the fallback.
    pub environment: Option<EquirectangularImage>,
}

impl Default for RenderAssetBundle {
    fn default() -> (r: RenderAssetBundle)
        ensures
            r.materials@.len() == 0,
            r.environment is None,
    {
        RenderAssetBundle { materials: Vec::new(), environment: None }
    }
}

/// Some material before the `n`th has its layer.
pub open spec fn layer_taken(materials: Seq<MaterialTextureSet>, n: int) -> bool {
    exists|i: int| 0 <= i < n && (#[trigger] materials[i]).layer.get() == materials[n].layer.get()
}

/// What a check of the first `n` materials of a bundle finds.
pub open spec fn materials_outcome(materials: Seq<MaterialTextureSet>, n: int) -> Result<
    (),
    RenderError,
>
    decreases n,
{
    if n <= 0 {
        Ok(())
    } else if materials_outcome(materials, n - 1) is Err {
        materials_outcome(materials, n - 1)
    } else {
        let material = materials[n - 1];
        if material.outcome() is Err {
            material.outcome()
        } else if layer_taken(materials, n - 1) {
            Err(RenderError::InvalidTextureData)
        } else if material.albedo.width != materials[0].albedo.width || material.albedo.height
            != materials[0].albedo.height {
            Err(RenderError::TextureDimensionMismatch)
        } else {
            Ok(())
        }
    }
}

/// What a check of a bundle finds.
pub open spec fn bundle_outcome(bundle: &RenderAssetBundle) -> Result<(), RenderError> {
    let found = materials_outcome(bundle.materials@, bundle.materials@.len() as int);
    if found is Err {
        found
    } else if bundle.environment matches Some(image) && !image.sound() {
        Err(RenderError::InvalidTextureData)
    } else {
        Ok(())
    }
}

proof fn lemma_first_failure(materials: Seq<MaterialTextureSet>, n: int, m: int)
    requires
        0 <= n <= m,
        materials_outcome(materials, n) is Err,
    ensures
        materials_outcome(materials, m) == materials_outcome(materials, n),
    decreases m - n,
{
    if n < m {
        lemma_first_failure(materials, n, m - 1);
    }
}

fn is_layer_taken(materials: &Vec<MaterialTextureSet>, n: usize) -> (r: bool)
    requires
        n < materials@.len(),
    ensures
        r == layer_taken(materials@, n as int),
{
    let mut i: usize = 0;
    while i < n
        invariant
            i <= n < materials@.len(),
            forall|j: int|
                0 <= j < i ==> (#[trigger] materials@[j]).layer.get()
                    != materials@[n as int].layer.get(),
        decreases n - i,
    {
        if materials[i].layer.get() == materials[n].layer.get() {
            return true;
        }
        i = i + 1;
    }
    false
}

/// Checks every material of a bundle, that no two share a layer or differ in size, and
/// the environment.
pub fn validate_bundle(bundle: &RenderAssetBundle) -> (r: Result<(), RenderError>)
    ensures
        r == bundle_outcome(bundle),
{
    let materials = &bundle.materials;
    let mut i: usize = 0;
    while i < materials.len()
        invariant
            i <= materials@.len(),
            materials == bundle.materials,
            materials_outcome(materials@, i as int) is Ok,
        decreases materials@.len() - i,
    {
        let material = &materials[i];
        match material.validate() {
            Ok(()) => {},
            Err(error) => {
                proof {
                    lemma_first_failure(materials@, i + 1, materials@.len() as int);
                }
                return Err(error);
            },
        }
        if is_layer_taken(materials, i) {
            proof {
                lemma_first_failure(materials@, i + 1, materials@.len() as int);
            }
            return Err(RenderError::InvalidTextureData);
        }
        if material.albedo.width != materials[0].albedo.width || material.albedo.height
            != materials[0].albedo.height {
            proof {
                lemma_first_failure(materials@, i + 1, materials@.len() as int);
            }
            return Err(RenderError::TextureDimensionMismatch);
        }
        i = i + 1;
    }
    match &bundle.environment {
        Some(image) => image.validate(),
        None => Ok(()),
    }
}

/// The layers that the texture arrays of a bundle need.
pub open spec fn required_layers(materials: Seq<MaterialTextureSet>, n: int) -> int
    decreases n,
{
    if n <= 0 {
        1
    } else {
        let before = required_layers(materials, n - 1);
        let own = materials[n - 1].layer.get() + 1;
        if own > before {
            own
        } else {
            before
        }
    }
}

/// Counts the layers that the texture arrays of a bundle need.
pub fn count_layers(materials: &Vec<MaterialTextureSet>) -> (r: u32)
    ensures
        r == required_layers(materials@, materials@.len() as int),
        1 <= r <= MAX_TEXTURE_LAYERS,
        forall|i: int| 0 <= i < materials@.len() ==> (#[trigger] materials@[i]).layer.get() < r,
{
    let mut r: u32 = 1;
    let mut i: usize = 0;
    while i < materials.len()
        invariant
            i <= materials@.len(),
            r == required_layers(materials@, i as int),
            1 <= r <= MAX_TEXTURE_LAYERS,
            forall|j: int| 0 <= j < i ==> (#[trigger] materials@[j]).layer.get() < r,
        decreases materials@.len() - i,
    {
        let own: u32 = materials[i].layer.get() + 1;
        if own > r {
            r = own;
        }
        i = i + 1;
    }
    r
}

/// Some image of a bundle is larger than a device takes.
pub open spec fn oversized(bundle: &RenderAssetBundle, maximum_dimension: u32) -> bool {
    ||| exists|i: int|
        0 <= i < bundle.materials@.len() && {
            ||| (#[trigger] bundle.materials@[i]).albedo.width > maximum_dimension
            ||| bundle.materials@[i].albedo.height > maximum_dimension
        }
    ||| bundle.environment matches Some(image) && (image.width > maximum_dimension
        || image.height > maximum_dimension)
}

/// Checks a bundle against the largest texture and the deepest array of a device.
pub fn validate_bundle_device_limits(
    maximum_dimension: u32,
    maximum_layers: u32,
    bundle: &RenderAssetBundle,
) -> (r: Result<(), RenderError>)
    ensures
        r == (if oversized(bundle, maximum_dimension) || required_layers(
            bundle.materials@,
            bundle.materials@.len() as int,
        ) > maximum_layers {
            Err(RenderError::InvalidTextureData)
        } else {
            Ok::<(), RenderError>(())
        }),
{
    let materials = &bundle.materials;
    let mut i: usize = 0;
    while i < materials.len()
        invariant
            i <= materials@.len(),
            materials == bundle.materials,
            forall|j: int|
                0 <= j < i ==> {
                    &&& (#[trigger] materials@[j]).albedo.width <= maximum_dimension
                    &&& materials@[j].albedo.height <= maximum_dimension
                },
        decreases materials@.len() - i,
    {
        if materials[i].albedo.width > maximum_dimension || materials[i].albedo.height
            > maximum_dimension {
            return Err(RenderError::InvalidTextureData);
        }
        i = i + 1;
    }
    match &bundle.environment {
        Some(image) => {
            if image.width > maximum_dimension || image.height > maximum_dimension {
                return Err(RenderError::InvalidTextureData);
            }
        },
        None => {},
    }
    if count_layers(materials) > maximum_layers {
        return Err(RenderError::InvalidTextureData);
    }
    Ok(())
}

/// Checks an image that is to replace a prepared environment.
pub fn validate_environment_replacement(
    expected_size: [u32; 2],
    image: &EquirectangularImage,
) -> (r: Result<(), RenderError>)
    ensures
        r == (if !image.sound() {
            Err(RenderError::InvalidTextureData)
        } else if image.width != expected_size[0] || image.height != expected_size[1] {
            Err(RenderError::TextureDimensionMismatch)
        } else {
            Ok::<(), RenderError>(())
        }),
{
    match image.validate() {
        Ok(()) => {},
        Err(error) => {
            return Err(error);
        },
    }
    if image.width != expected_size[0] || image.height != expected_size[1] {
        return Err(RenderError::TextureDimensionMismatch);
    }
    Ok(())
}

/// A replacement is accepted only where the bundle that holds it would be.
pub proof fn replacements_are_sound(
    expected_size: [u32; 2],
    image: &EquirectangularImage,
    bundle: &RenderAssetBundle,
)
    requires
        image.sound(),
        image.width == expected_size[0],
        image.height == expected_size[1],
        bundle_outcome(bundle) is Ok,
    ensures
        bundle_outcome(
            &(RenderAssetBundle { materials: bundle.materials, environment: Some(*image) }),
        ) is Ok,
{
}

/// In an accepted bundle every material is sound, alone on its layer, and as large as
/// the others.
pub proof fn accepted_bundles_stack(bundle: &RenderAssetBundle, i: int, j: int)
    requires
        bundle_outcome(bundle) is Ok,
        0 <= i < j < bundle.materials@.len(),
    ensures
        bundle.materials@[i].outcome() is Ok,
        bundle.materials@[j].outcome() is Ok,
        bundle.materials@[i].layer.get() != bundle.materials@[j].layer.get(),
        bundle.materials@[i].albedo.width == bundle.materials@[j].albedo.width,
        bundle.materials@[i].albedo.height == bundle.materials@[j].albedo.height,
{
    let materials = bundle.materials@;
    if materials_outcome(materials, i + 1) is Err {
        lemma_first_failure(materials, i + 1, materials.len() as int);
    }
    if materials_outcome(materials, j + 1) is Err {
        lemma_first_failure(materials, j + 1, materials.len() as int);
    }
}

/// Bit of a layer in a mask.
pub open spec fn has_layer(mask: u32, layer: u32) -> bool {
    (mask >> layer) & 1 == 1
}

/// Some of the first `n` materials is on a layer.
pub open spec fn holds_layer(materials: Seq<MaterialTextureSet>, n: int, layer: u32) -> bool {
    exists|i: int| 0 <= i < n && (#[trigger] materials[i]).layer.get() == layer
}

/// Marks the layers that the materials of a bundle fill.
pub fn material_mask(materials: &Vec<MaterialTextureSet>) -> (r: u32)
    ensures
        forall|layer: u32|
            layer < MAX_TEXTURE_LAYERS ==> (#[trigger] has_layer(r, layer) <==> holds_layer(
                materials@,
                materials@.len() as int,
                layer,
            )),
{
    let mut r: u32 = 0;
    let mut i: usize = 0;
    proof {
        assert forall|layer: u32| layer < MAX_TEXTURE_LAYERS implies !#[trigger] has_layer(
            0,
            layer,
        ) by {
            assert((0u32 >> layer) & 1 != 1) by (bit_vector);
        }
    }
    while i < materials.len()
        invariant
            i <= materials@.len(),
            forall|layer: u32|
                layer < MAX_TEXTURE_LAYERS ==> (#[trigger] has_layer(r, layer) <==> holds_layer(
                    materials@,
                    i as int,
                    layer,
                )),
        decreases materials@.len() - i,
    {
        let own: u32 = materials[i].layer.get();
        let next: u32 = r | (1u32 << own);
        proof {
            assert forall|layer: u32| layer < MAX_TEXTURE_LAYERS implies (#[trigger] has_layer(
                next,
                layer,
            ) <==> holds_layer(materials@, i + 1, layer)) by {
                assert(((r | (1u32 << own)) >> layer) & 1 == 1 <==> (r >> layer) & 1 == 1 || layer
                    == own) by (bit_vector)
                    requires
                        own < 32,
                        layer < 32,
                ;
                assert(has_layer(r, layer) <==> holds_layer(materials@, i as int, layer));
                if holds_layer(materials@, i + 1, layer) && layer != own {
                    let k = choose|k: int|
                        0 <= k < i + 1 && (#[trigger] materials@[k]).layer.get() == layer;
                    assert(k < i);
                }
                if layer == own {
                    assert(materials@[i as int].layer.get() == layer);
                }
                if holds_layer(materials@, i as int, layer) {
                    let k = choose|k: int|
                        0 <= k < i && (#[trigger] materials@[k]).layer.get() == layer;
                    assert(0 <= k < i + 1);
                }
            }
        }
        r = next;
        i = i + 1;
    }
    r
}

/// Texture repetitions of a layer that the first `n` materials leave: those of the last
/// material on it, or one each way.
pub open spec fn layer_tiling(materials: Seq<MaterialTextureSet>, n: int, layer: int) -> [Single; 4]
    decreases n,
{
    if n <= 0 {
        [Single::one(), Single::one(), Single::zero(), Single::zero()]
    } else if materials[n - 1].layer.get() == layer {
        [
            materials[n - 1].uv_tiling[0],
            materials[n - 1].uv_tiling[1],
            Single::zero(),
            Single::zero(),
        ]
    } else {
        layer_tiling(materials, n - 1, layer)
    }
}

/// Texture repetitions of every layer.
pub fn material_uv_tiling(materials: &Vec<MaterialTextureSet>) -> (r: Vec<[Single; 4]>)
    ensures
        r@.len() == MAX_TEXTURE_LAYERS,
        forall|layer: int|
            0 <= layer < MAX_TEXTURE_LAYERS ==> #[trigger] r@[layer] == layer_tiling(
                materials@,
                materials@.len() as int,
                layer,
            ),
{
    let mut r: Vec<[Single; 4]> = Vec::new();
    let mut k: usize = 0;
    while k < 32
        invariant
            k <= 32,
            r@.len() == k,
            forall|layer: int|
                0 <= layer < k ==> #[trigger] r@[layer] == layer_tiling(materials@, 0, layer),
        decreases 32 - k,
    {
        r.push([Single::one(), Single::one(), Single::zero(), Single::zero()]);
        k = k + 1;
    }
    let mut i: usize = 0;
    while i < materials.len()
        invariant
            i <= materials@.len(),
            r@.len() == 32,
            forall|layer: int|
                0 <= layer < 32 ==> #[trigger] r@[layer] == layer_tiling(
                    materials@,
                    i as int,
                    layer,
                ),
        decreases materials@.len() - i,
    {
        let layer: u32 = materials[i].layer.get();
        let tiling = materials[i].uv_tiling;
        r.set(layer as usize, [tiling[0], tiling[1], Single::zero(), Single::zero()]);
        i = i + 1;
    }
    r
}

/// Largest radiance that half precision is given.
pub open spec fn spec_safe_radiance() -> Single {
    Single::ratio(60000, 1)
}

/// Largest radiance that half precision is given.
#[verifier::when_used_as_spec(spec_safe_radiance)]
pub fn safe_radiance() -> (r: Single)
    ensures
        r == spec_safe_radiance(),
{
    Single::ratio(60000, 1)
}

/// Largest colour component of the first `n` pixels, at least zero.
pub open spec fn peak(pixels: Seq<[Single; 4]>, n: int) -> Single
    decreases n,
{
    if n <= 0 {
        Single::zero()
    } else {
        let pixel = pixels[n - 1];
        peak(pixels, n - 1).max(pixel[0]).max(pixel[1]).max(pixel[2])
    }
}

/// Factor that brings a peak into the range of half precision.
pub open spec fn spec_upload_scale(maximum: Single) -> Single {
    if safe_radiance().less(maximum) {
        safe_radiance().over(maximum)
    } else {
        Single::one()
    }
}

/// Factor that brings a peak into the range of half precision.
#[verifier::when_used_as_spec(spec_upload_scale)]
pub fn upload_scale(maximum: Single) -> (r: Single)
    ensures
        r == spec_upload_scale(maximum),
{
    if safe_radiance().less(maximum) {
        safe_radiance().over(maximum)
    } else {
        Single::one()
    }
}

/// Factor that the shader restores after an upload with a scale.
pub open spec fn spec_radiance_scale(upload: Single) -> Single {
    Single::one().over(upload)
}

/// Factor that the shader restores after an upload with a scale.
#[verifier::when_used_as_spec(spec_radiance_scale)]
pub fn radiance_scale(upload: Single) -> (r: Single)
    ensures
        r == spec_radiance_scale(upload),
{
    Single::one().over(upload)
}

/// Finds the largest colour component of an image, at least zero.
pub fn find_peak(pixels: &Vec<[Single; 4]>) -> (r: Single)
    ensures
        r == peak(pixels@, pixels@.len() as int),
{
    let mut r = Single::zero();
    let mut i: usize = 0;
    while i < pixels.len()
        invariant
            i <= pixels@.len(),
            r == peak(pixels@, i as int),
        decreases pixels@.len() - i,
    {
        let pixel = pixels[i];
        r = r.max(pixel[0]).max(pixel[1]).max(pixel[2]);
        i = i + 1;
    }
    r
}

/// A pixel as it is uploaded: scaled colour, untouched alpha.
pub open spec fn spec_scaled_pixel(pixel: [Single; 4], scale: Single) -> [Single; 4] {
    [pixel[0].times(scale), pixel[1].times(scale), pixel[2].times(scale), pixel[3]]
}

/// A pixel as it is uploaded: scaled colour, untouched alpha.
#[verifier::when_used_as_spec(spec_scaled_pixel)]
pub fn scaled_pixel(pixel: [Single; 4], scale: Single) -> (r: [Single; 4])
    ensures
        r == spec_scaled_pixel(pixel, scale),
{
    [pixel[0].times(scale), pixel[1].times(scale), pixel[2].times(scale), pixel[3]]
}

/// No colour component of a sound image passes its peak.
pub proof fn peaks_bound_radiance(pixels: Seq<[Single; 4]>, n: int, i: int, channel: int)
    requires
        0 <= i < n <= pixels.len(),
        0 <= channel < 3,
        forall|j: int| 0 <= j < n ==> radiant(#[trigger] pixels[j]),
    ensures
        pixels[i]@[channel].at_most(peak(pixels, n)),
        peak(pixels, n).is_finite(),
        Single::zero().at_most(peak(pixels, n)),
    decreases n,
{
    lemma_peak_is_a_size(pixels, n - 1);
    assert(radiant(pixels[n - 1]));
    assert(radiant(pixels[i]));
    if i < n - 1 {
        peaks_bound_radiance(pixels, n - 1, i, channel);
    }
}

proof fn lemma_peak_is_a_size(pixels: Seq<[Single; 4]>, n: int)
    requires
        0 <= n <= pixels.len(),
        forall|j: int| 0 <= j < n ==> radiant(#[trigger] pixels[j]),
    ensures
        peak(pixels, n).is_finite(),
        Single::zero().at_most(peak(pixels, n)),
    decreases n,
{
    if n > 0 {
        assert(radiant(pixels[n - 1]));
        lemma_peak_is_a_size(pixels, n - 1);
    }
}

} // verus!
