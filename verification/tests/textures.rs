//! Decoded textures and their mip chains.

use synth_roof::assets::{
    EquirectangularImage, MaterialTextureLayer, MaterialTextureSet, RenderAssetBundle, Rgba8Image,
    count_layers, find_peak, hdr_luminance, material_mask, material_uv_tiling, radiance_scale,
    scaled_pixel, upload_scale, validate_bundle, validate_bundle_device_limits,
    validate_environment_replacement, wrap_angle,
};
use synth_roof::mip_chain::{environment_mips, rgba8_mips};
use synth_roof::mips::{
    MipFilter, average_srgb, byte_fraction, downsample_hdr, downsample_rgba8, linear_base,
    linear_to_srgb_u8, mip_level_count, next_mip, srgb_u8_to_linear,
};
use synth_roof::render_error::RenderError;
use synth_roof::single::Single;

fn s(value: f32) -> Single {
    Single::from_bits(value.to_bits())
}

fn f(value: Single) -> f32 {
    f32::from_bits(value.to_bits())
}

fn pixel(value: [f32; 4]) -> [Single; 4] {
    value.map(s)
}

fn hdr(width: u32, height: u32, pixels: Vec<[f32; 4]>) -> Result<EquirectangularImage, RenderError> {
    EquirectangularImage::new(width, height, pixels.into_iter().map(pixel).collect())
}

fn image(width: u32, height: u32) -> Rgba8Image {
    let mut pixels = vec![127; width as usize * height as usize * 4];
    for pixel in pixels.chunks_exact_mut(4) {
        pixel[3] = u8::MAX;
    }
    Rgba8Image::new(width, height, pixels).unwrap()
}

fn layer(number: u32) -> MaterialTextureLayer {
    MaterialTextureLayer::new(number).unwrap()
}

fn material(number: u32) -> MaterialTextureSet {
    MaterialTextureSet::new(layer(number), image(2, 2), image(2, 2), image(2, 2), [s(1.0), s(3.0)])
        .unwrap()
}

fn power(base: Single) -> Single {
    s(f(base).powf(2.4))
}

fn root(light: Single) -> Single {
    s(f(light).powf(1.0 / 2.4))
}

fn half_bits(value: Single) -> u16 {
    half::f16::from_f32(f(value)).to_bits()
}

#[test]
fn validates_decoded_pixel_counts() {
    assert!(Rgba8Image::new(2, 2, vec![0; 16]).is_ok());
    assert!(Rgba8Image::new(2, 2, vec![0; 15]).is_err());
    assert!(hdr(1, 1, vec![[1.0; 4]]).is_ok());
    assert!(hdr(1, 1, vec![[f32::NAN; 4]]).is_err());
}

#[test]
fn accepts_finite_hdr_values_above_f16_range_for_scaled_upload() {
    assert!(hdr(1, 1, vec![[421_888.0, 1.0, 0.0, 1.0]]).is_ok());
    assert!(hdr(1, 1, vec![[f32::INFINITY, 1.0, 0.0, 1.0]]).is_err());
    assert!(hdr(1, 1, vec![[-0.01, 1.0, 0.0, 1.0]]).is_err());
    assert!(hdr(1, 1, vec![[1.0, 1.0, 1.0, 1.01]]).is_err());
}

#[test]
fn revalidates_public_image_storage_after_mutation() {
    let mut rgba = image(2, 2);
    rgba.pixels.pop();
    assert!(matches!(rgba.validate(), Err(RenderError::InvalidTextureData)));

    let mut environment = hdr(2, 1, vec![[0.25; 4]; 2]).unwrap();
    environment.width = 3;
    assert!(matches!(environment.validate(), Err(RenderError::InvalidTextureData)));
    environment.width = 2;
    environment.pixels[0][2] = s(f32::INFINITY);
    assert!(matches!(environment.validate(), Err(RenderError::InvalidTextureData)));
}

#[test]
fn bundle_validation_rechecks_mutated_material_and_environment_pixels() {
    let mut material = MaterialTextureSet::new(
        layer(0),
        image(2, 2),
        image(2, 2),
        image(2, 2),
        [s(1.0), s(1.0)],
    )
    .unwrap();
    material.normal.pixels.truncate(3);
    assert!(matches!(
        validate_bundle(&RenderAssetBundle { materials: vec![material], environment: None }),
        Err(RenderError::InvalidTextureData)
    ));

    let mut environment = hdr(2, 1, vec![[0.25; 4]; 2]).unwrap();
    environment.pixels.clear();
    assert!(matches!(
        validate_bundle(&RenderAssetBundle {
            materials: Vec::new(),
            environment: Some(environment),
        }),
        Err(RenderError::InvalidTextureData)
    ));
}

#[test]
fn environment_replacement_validates_pixels_before_upload() {
    let valid = hdr(2, 1, vec![[0.5; 4]; 2]).unwrap();
    assert!(validate_environment_replacement([2, 1], &valid).is_ok());

    let wrong_size = hdr(1, 1, vec![[0.5; 4]]).unwrap();
    assert!(matches!(
        validate_environment_replacement([2, 1], &wrong_size),
        Err(RenderError::TextureDimensionMismatch)
    ));

    let mut invalid_pixels = valid;
    invalid_pixels.pixels.pop();
    assert!(matches!(
        validate_environment_replacement([2, 1], &invalid_pixels),
        Err(RenderError::InvalidTextureData)
    ));
}

#[test]
fn extreme_dimensions_return_errors_without_overflowing() {
    assert!(Rgba8Image::new(u32::MAX, u32::MAX, Vec::new()).is_err());
    assert!(hdr(u32::MAX, u32::MAX, Vec::new()).is_err());
    assert!(Rgba8Image::new(0, 1, Vec::new()).is_err());
    assert!(hdr(1, 0, Vec::new()).is_err());
}

#[test]
fn pbr_maps_must_share_dimensions() {
    assert!(
        MaterialTextureSet::new(
            layer(0),
            image(4, 4),
            image(4, 4),
            image(2, 2),
            [s(2.0), s(2.0)],
        )
        .is_err()
    );
}

#[test]
fn mip_generation_reaches_one_pixel_and_preserves_flat_normals() {
    assert_eq!(mip_level_count(1024, 1024), 11);
    assert_eq!(mip_level_count(1024, 512), 11);
    let flat_normal = [128, 128, 255, 255];
    let mip = downsample_rgba8(&flat_normal.repeat(4), 2, 2, 1, 1, MipFilter::Normal, &power, &root);
    assert!((i16::from(mip[0]) - 128).abs() <= 1);
    assert!((i16::from(mip[1]) - 128).abs() <= 1);
    assert_eq!(mip[2], 255);
    assert_eq!(mip[3], 255);
}

#[test]
fn hdr_mips_average_linear_radiance() {
    let source = vec![
        pixel([4.0, 0.0, 0.0, 1.0]),
        pixel([0.0, 4.0, 0.0, 1.0]),
        pixel([0.0, 0.0, 4.0, 1.0]),
        pixel([4.0, 4.0, 4.0, 1.0]),
    ];
    assert_eq!(downsample_hdr(&source, 2, 2, 1, 1), vec![pixel([2.0, 2.0, 2.0, 1.0])]);
}

#[test]
fn dominant_hdr_light_aligns_to_requested_world_azimuth() {
    let mut pixels = vec![[0.1, 0.1, 0.1, 1.0]; 8];
    pixels[6] = [100.0, 100.0, 100.0, 1.0];
    let image = hdr(8, 1, pixels).unwrap();
    let source_longitude = f(image.dominant_light_longitude_radians().unwrap());
    assert!((source_longitude - 0.625 * std::f32::consts::PI).abs() < 1.0e-6);
    let world_azimuth = -0.3;
    let yaw = f(image.yaw_to_align_dominant_light(s(world_azimuth)).unwrap());
    assert!(f(wrap_angle(s(world_azimuth + yaw - source_longitude))).abs() < 1.0e-6);
}

#[test]
fn rejects_non_opaque_albedo_in_opaque_pipeline() {
    let mut albedo = image(2, 2);
    albedo.pixels[3] = 254;
    assert!(
        MaterialTextureSet::new(layer(0), albedo, image(2, 2), image(2, 2), [s(1.0), s(1.0)])
            .is_err()
    );
}

#[test]
fn srgb_mips_average_in_linear_light() {
    let samples = [[0, 0, 0, 255], [255, 255, 255, 255], [0, 0, 0, 255], [255, 255, 255, 255]];
    let result = average_srgb(samples, &power, &root);
    assert!((186..=189).contains(&result[0]));
    assert_eq!(result[0], result[1]);
    assert_eq!(result[1], result[2]);
    assert_eq!(result[3], 255);
}

#[test]
fn srgb_bytes_survive_a_round_trip_through_linear_light() {
    for byte in 0..=255_u8 {
        let linear = srgb_u8_to_linear(byte, power(linear_base(byte_fraction(byte))));
        let native = {
            let channel = f32::from(byte) / 255.0;
            if channel <= 0.040_45 { channel / 12.92 } else { ((channel + 0.055) / 1.055).powf(2.4) }
        };
        assert_eq!(f(linear), native);
        assert_eq!(linear_to_srgb_u8(linear, root(linear)), byte);
    }
}

#[test]
fn whole_images_halve_in_every_filter() {
    let source: Vec<u8> = (0..4 * 2 * 4).map(|value| value as u8 * 7).collect();
    let linear = downsample_rgba8(&source, 4, 2, 2, 1, MipFilter::Linear, &power, &root);
    let expected: Vec<u8> = (0..8)
        .map(|at| {
            let (x, channel) = (at / 4, at % 4);
            let total: u32 = [(0, 0), (1, 0), (0, 1), (1, 1)]
                .iter()
                .map(|(dx, dy)| u32::from(source[((dy * 4) + x * 2 + dx) * 4 + channel]))
                .sum();
            ((total + 2) / 4) as u8
        })
        .collect();
    assert_eq!(linear, expected);

    let encoded = downsample_rgba8(&source, 4, 2, 2, 1, MipFilter::Srgb, &power, &root);
    assert_eq!(encoded.len(), 8);
    assert_eq!(encoded[3], linear[3]);
    assert!(encoded[0] >= linear[0]);
}

#[test]
fn mip_chains_end_at_one_pixel() {
    let (mut width, mut height, mut levels) = (300, 7, 1);
    while width > 1 || height > 1 {
        width = next_mip(width);
        height = next_mip(height);
        levels += 1;
    }
    assert_eq!(levels, mip_level_count(300, 7));
    assert_eq!(mip_level_count(1, 1), 1);
}

#[test]
fn layers_stop_at_the_shader_budget() {
    assert_eq!(MaterialTextureLayer::new(31).unwrap().get(), 31);
    assert!(matches!(MaterialTextureLayer::new(32), Err(RenderError::InvalidTextureData)));
}

#[test]
fn bundles_hold_one_size_and_distinct_layers() {
    let good = RenderAssetBundle { materials: vec![material(0), material(5)], environment: None };
    assert!(validate_bundle(&good).is_ok());
    assert_eq!(count_layers(&good.materials), 6);
    assert_eq!(material_mask(&good.materials), 0b10_0001);
    let tiling = material_uv_tiling(&good.materials);
    assert_eq!(tiling.len(), 32);
    assert_eq!(tiling[5], pixel([1.0, 3.0, 0.0, 0.0]));
    assert!(validate_bundle_device_limits(2, 6, &good).is_ok());
    assert!(validate_bundle_device_limits(2, 5, &good).is_err());
    assert!(validate_bundle_device_limits(1, 6, &good).is_err());

    let twice = RenderAssetBundle { materials: vec![material(1), material(1)], environment: None };
    assert!(validate_bundle(&twice).is_err());

    let mut mixed = vec![material(0), material(1)];
    mixed[1].albedo = image(4, 4);
    mixed[1].normal = image(4, 4);
    mixed[1].arm = image(4, 4);
    let mixed = RenderAssetBundle { materials: mixed, environment: None };
    assert!(matches!(validate_bundle(&mixed), Err(RenderError::TextureDimensionMismatch)));
}

#[test]
fn bright_environments_are_scaled_for_half_precision() {
    let pixels = vec![pixel([421_888.0, 10.0, 1.0, 1.0]), pixel([1.0, 2.0, 3.0, 1.0])];
    let peak = find_peak(&pixels);
    assert_eq!(f(peak), 421_888.0);
    let upload = upload_scale(peak);
    assert!(f(upload) < 1.0);
    assert!(f(radiance_scale(upload)) > 1.0);
    assert!(f(scaled_pixel(pixels[0], upload)[0]) <= 65_504.0);
    assert_eq!(f(scaled_pixel(pixels[0], upload)[3]), 1.0);
    assert_eq!(f(scaled_pixel(pixels[1], upload)[1]), 2.0 * f(upload));

    let dim = find_peak(&vec![pixel([0.4; 4])]);
    assert_eq!(f(upload_scale(dim)), 1.0);
    assert_eq!(f(radiance_scale(upload_scale(dim))), 1.0);
}

#[test]
fn luminance_weighs_the_channels() {
    let value = [0.25_f32, 0.5, 0.75];
    let native = value[0] * 0.2126 + value[1] * 0.7152 + value[2] * 0.0722;
    assert!((f(hdr_luminance(pixel([0.25, 0.5, 0.75, 1.0]))) - native).abs() < 1.0e-6);
}

#[test]
fn mip_chains_hold_every_level() {
    let source = Rgba8Image::new(4, 2, (0..32).map(|value| value as u8 * 7).collect()).unwrap();
    let levels = rgba8_mips(&source, MipFilter::Linear, &power, &root).unwrap();
    let sizes: Vec<(u32, u32)> = levels.iter().map(|level| (level.width, level.height)).collect();
    assert_eq!(sizes, [(4, 2), (2, 1), (1, 1)]);
    assert_eq!(levels[0].pixels, source.pixels);
    for (at, (width, height)) in [(0, (4, 2)), (1, (2, 1))] {
        let (next, pixels) = (&levels[at + 1], &levels[at].pixels);
        let (w, h) = (next.width, next.height);
        let filter = MipFilter::Linear;
        let expected = downsample_rgba8(pixels, width, height, w, h, filter, &power, &root);
        assert_eq!(next.pixels, expected);
    }
    let broken = Rgba8Image { width: 3, ..source };
    let refused = rgba8_mips(&broken, MipFilter::Srgb, &power, &root);
    assert!(matches!(refused, Err(RenderError::InvalidTextureData)));
}

#[test]
fn opaque_images_have_opaque_copies() {
    let pixels = (0..64).map(|at| if at % 4 == 3 { 255 } else { (at * 11 % 256) as u8 }).collect();
    let source = Rgba8Image::new(4, 4, pixels).unwrap();
    for filter in [MipFilter::Srgb, MipFilter::Normal, MipFilter::Linear] {
        for level in rgba8_mips(&source, filter, &power, &root).unwrap() {
            assert!(level.pixels.chunks(4).all(|pixel| pixel[3] == 255));
        }
    }
}

#[test]
fn environments_are_copied_in_half_precision() {
    let pixels = vec![[8.0, 0.5, 0.0, 1.0], [0.0, 1.5, 0.0, 1.0]];
    let image = hdr(2, 1, pixels).unwrap();
    let (levels, restored) = environment_mips(&image, &half_bits).unwrap();
    assert_eq!(f(restored), 1.0);
    assert_eq!(levels.len(), 2);
    let bits = |values: &[f32]| values.iter().map(|value| half_bits(s(*value))).collect::<Vec<_>>();
    assert_eq!(levels[0].channels, bits(&[8.0, 0.5, 0.0, 1.0, 0.0, 1.5, 0.0, 1.0]));
    assert_eq!((levels[1].width, levels[1].height), (1, 1));
    assert_eq!(levels[1].channels, bits(&[4.0, 1.0, 0.0, 1.0]));

    let bright = hdr(2, 1, vec![[421_888.0, 10.0, 1.0, 1.0], [1.0, 2.0, 3.0, 1.0]]).unwrap();
    let (levels, restored) = environment_mips(&bright, &half_bits).unwrap();
    assert!(f(restored) > 1.0);
    assert!(levels[0].channels.iter().all(|bits| half::f16::from_bits(*bits).is_finite()));
}
