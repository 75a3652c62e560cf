//! All copies of an image, from full size down to one pixel.

use crate::assets::{
    find_peak, radiance_scale, scaled_pixel, upload_scale, EquirectangularImage, Rgba8Image,
};
use crate::given::{answer_of, answers, ask};
use crate::mips::{
    downsample_hdr, downsample_rgba8, longer_side, mip_level_count, next_mip, MipFilter,
};
use crate::render_error::RenderError;
use crate::single::Single;
use vstd::prelude::*;

verus! {

/// A copy of an RGBA image.
#[derive(Clone, Debug, PartialEq, Eq)]
pub struct MipLevel {
    /// Width in pixels.
    pub width: u32,
    /// Height in pixels.
    pub height: u32,
    /// Tightly packed row-major RGBA bytes.
    pub pixels: Vec<u8>,
}

/// The bytes of the copy that is a number of levels down, given the power 2.4 and the power
/// 1 / 2.4.
pub open spec fn level_bytes(
    image: Rgba8Image,
    filter: MipFilter,
    power: spec_fn(Single) -> Single,
    root: spec_fn(Single) -> Single,
    level: int,
) -> Seq<u8>
    decreases level,
{
    if level <= 0 {
        image.pixels@
    } else {
        crate::mips::smaller_copy(
            level_bytes(image, filter, power, root, level - 1),
            crate::mips::mip_size(image.width, level - 1) as int,
            crate::mips::mip_size(image.height, level - 1) as int,
            crate::mips::mip_size(image.width, level) as int,
            crate::mips::mip_size(image.height, level) as int,
            filter,
            power,
            root,
        )
    }
}

/// The number of copies of an image.
pub open spec fn level_total(width: u32, height: u32) -> int {
    crate::mips::levels(longer_side(width, height) as int)
}

impl MipLevel {
    /// The copy that is a number of levels down.
    pub open spec fn stands_for(
        self,
        image: Rgba8Image,
        filter: MipFilter,
        power: spec_fn(Single) -> Single,
        root: spec_fn(Single) -> Single,
        level: int,
    ) -> bool {
        &&& self.width == crate::mips::mip_size(image.width, level)
        &&& self.height == crate::mips::mip_size(image.height, level)
        &&& self.pixels@ == level_bytes(image, filter, power, root, level)
    }
}

proof fn lemma_smaller(width: u32, height: u32, values: int)
    requires
        width > 0,
        height > 0,
        values > 0,
    ensures
        0 < next_mip(width) <= width,
        0 < next_mip(height) <= height,
        next_mip(width) * next_mip(height) * values <= width * height * values,
{
    let (w, h) = (next_mip(width), next_mip(height));
    assert(w * h <= width * height) by (nonlinear_arith)
        requires
            w <= width,
            h <= height,
    ;
    assert(w * h * values <= width * height * values) by (nonlinear_arith)
        requires
            w * h <= width * height,
            values > 0,
    ;
}

/// Makes all copies of an RGBA image, given functions for the power 2.4 and the power
/// 1 / 2.4.
pub fn rgba8_mips<P: Fn(Single) -> Single, Q: Fn(Single) -> Single>(
    image: &Rgba8Image,
    filter: MipFilter,
    power: &P,
    root: &Q,
) -> (r: Result<Vec<MipLevel>, RenderError>)
    requires
        answers(*power),
        answers(*root),
    ensures
        match r {
            Ok(levels) => {
                &&& image.sound()
                &&& levels@.len() == level_total(image.width, image.height)
                &&& forall|k: int|
                    0 <= k < levels@.len() ==> (#[trigger] levels@[k]).stands_for(
                        *image,
                        filter,
                        answer_of(*power),
                        answer_of(*root),
                        k,
                    )
            },
            Err(error) => !image.sound() && error == RenderError::InvalidTextureData,
        },
{
    match image.validate() {
        Ok(()) => {},
        Err(error) => {
            return Err(error);
        },
    }
    let count = mip_level_count(image.width, image.height);
    let mut levels: Vec<MipLevel> = Vec::new();
    let mut width = image.width;
    let mut height = image.height;
    let mut pixels = image.pixels.clone();
    assert(pixels@ =~= image.pixels@);
    let mut level: u32 = 0;
    while level < count
        invariant
            answers(*power),
            answers(*root),
            level <= count == level_total(image.width, image.height),
            width == crate::mips::mip_size(image.width, level as int),
            height == crate::mips::mip_size(image.height, level as int),
            width > 0,
            height > 0,
            pixels@ == level_bytes(
                *image,
                filter,
                answer_of(*power),
                answer_of(*root),
                level as int,
            ),
            pixels@.len() == width * height * 4,
            levels@.len() == level,
            forall|k: int|
                0 <= k < level ==> (#[trigger] levels@[k]).stands_for(
                    *image,
                    filter,
                    answer_of(*power),
                    answer_of(*root),
                    k,
                ),
        decreases count - level,
    {
        let next_width = next_mip(width);
        let next_height = next_mip(height);
        proof {
            lemma_smaller(width, height, 4);
        }
        let stored: usize = pixels.len();
        assert(next_width * next_height * 4 <= stored);
        let next = downsample_rgba8(
            pixels.as_slice(),
            width,
            height,
            next_width,
            next_height,
            filter,
            power,
            root,
        );
        levels.push(MipLevel { width, height, pixels });
        width = next_width;
        height = next_height;
        pixels = next;
        level = level + 1;
    }
    Ok(levels)
}

/// Bytes of RGBA pixels without any transparency.
pub open spec fn opaque_bytes(pixels: Seq<u8>) -> bool {
    forall|k: int| 0 <= k < pixels.len() && k % 4 == 3 ==> #[trigger] pixels[k] == 255
}

/// Every copy of an opaque image is opaque and holds four bytes for each of its pixels.
pub proof fn opaque_images_have_opaque_copies(
    image: Rgba8Image,
    filter: MipFilter,
    power: spec_fn(Single) -> Single,
    root: spec_fn(Single) -> Single,
    level: int,
)
    requires
        image.sound(),
        opaque_bytes(image.pixels@),
        level >= 0,
    ensures
        ({
            let width = crate::mips::mip_size(image.width, level);
            let height = crate::mips::mip_size(image.height, level);
            &&& width > 0
            &&& height > 0
            &&& level_bytes(image, filter, power, root, level).len() == width * height * 4
        }),
        opaque_bytes(level_bytes(image, filter, power, root, level)),
    decreases level,
{
    if level > 0 {
        opaque_images_have_opaque_copies(image, filter, power, root, level - 1);
        let before = level_bytes(image, filter, power, root, level - 1);
        let bytes = level_bytes(image, filter, power, root, level);
        let width = crate::mips::mip_size(image.width, level - 1);
        let height = crate::mips::mip_size(image.height, level - 1);
        lemma_smaller(width, height, 4);
        let next = next_mip(width) as int;
        let rows = next_mip(height) as int;
        assert(next * rows * 4 >= 0) by (nonlinear_arith)
            requires
                next > 0,
                rows > 0,
        ;
        assert forall|k: int| 0 <= k < bytes.len() && k % 4 == 3 implies #[trigger] bytes[k]
            == 255 by {
            let (x, y) = ((k / 4) % next, (k / 4) / next);
            assert(x >= 0 && y >= 0) by (nonlinear_arith)
                requires
                    k >= 0,
                    next > 0,
                    x == (k / 4) % next,
                    y == (k / 4) / next,
            ;
            let samples = crate::mips::samples_of(before, width as int, height as int, x, y);
            lemma_opaque_sample(before, width as int, height as int, x, y, 0);
            lemma_opaque_sample(before, width as int, height as int, x, y, 1);
            lemma_opaque_sample(before, width as int, height as int, x, y, 2);
            lemma_opaque_sample(before, width as int, height as int, x, y, 3);
            crate::mips::opaque_images_stay_opaque(filter, samples, power, root);
        }
    }
}

proof fn lemma_opaque_sample(pixels: Seq<u8>, width: int, height: int, x: int, y: int, k: int)
    requires
        width > 0,
        height > 0,
        x >= 0,
        y >= 0,
        0 <= k < 4,
        pixels.len() == width * height * 4,
        opaque_bytes(pixels),
    ensures
        crate::mips::pixel_of(
            pixels,
            crate::mips::sample_place(width, height, x, y, k),
        )@[3] == 255,
{
    crate::mips::lemma_sample_place(width, height, x, y, k);
    let place = crate::mips::sample_place(width, height, x, y, k);
    assert(pixels[4 * place + 3] == 255);
}

/// A copy of a radiance image in half precision.
#[derive(Clone, Debug, PartialEq, Eq)]
pub struct HalfLevel {
    /// Width in pixels.
    pub width: u32,
    /// Height in pixels.
    pub height: u32,
    /// Bits of the tightly packed row-major RGBA channels.
    pub channels: Vec<u16>,
}

/// The pixels of the copy that is a number of levels down.
pub open spec fn level_radiance(image: EquirectangularImage, level: int) -> Seq<[Single; 4]>
    decreases level,
{
    if level <= 0 {
        image.pixels@
    } else {
        crate::mips::smaller_radiance(
            level_radiance(image, level - 1),
            crate::mips::mip_size(image.width, level - 1) as int,
            crate::mips::mip_size(image.height, level - 1) as int,
            crate::mips::mip_size(image.width, level) as int,
            crate::mips::mip_size(image.height, level) as int,
        )
    }
}

/// The factor by which an image is scaled before it is brought to half precision.
pub open spec fn upload_factor(image: EquirectangularImage) -> Single {
    upload_scale(crate::assets::peak(image.pixels@, image.pixels@.len() as int))
}

/// Pixels in half precision after scaling.
pub open spec fn half_channels(
    pixels: Seq<[Single; 4]>,
    scale: Single,
    half: spec_fn(Single) -> u16,
) -> Seq<u16> {
    Seq::new(pixels.len() * 4, |k: int| half(scaled_pixel(pixels[k / 4], scale)@[k % 4]))
}

impl HalfLevel {
    /// The copy that is a number of levels down.
    pub open spec fn stands_for(
        self,
        image: EquirectangularImage,
        half: spec_fn(Single) -> u16,
        level: int,
    ) -> bool {
        &&& self.width == crate::mips::mip_size(image.width, level)
        &&& self.height == crate::mips::mip_size(image.height, level)
        &&& self.channels@ == half_channels(
            level_radiance(image, level),
            upload_factor(image),
            half,
        )
    }
}

fn list_half_channels<H: Fn(Single) -> u16>(
    pixels: &Vec<[Single; 4]>,
    scale: Single,
    half: &H,
) -> (r: Vec<u16>)
    requires
        answers(*half),
    ensures
        r@ == half_channels(pixels@, scale, answer_of(*half)),
{
    let mut r: Vec<u16> = Vec::new();
    let mut i: usize = 0;
    while i < pixels.len()
        invariant
            answers(*half),
            i <= pixels@.len(),
            r@.len() == 4 * i,
            forall|k: int|
                0 <= k < 4 * i ==> #[trigger] r@[k] == half_channels(
                    pixels@,
                    scale,
                    answer_of(*half),
                )[k],
        decreases pixels@.len() - i,
    {
        let pixel = scaled_pixel(pixels[i], scale);
        let ghost before = r@;
        r.push(ask(half, pixel[0]));
        r.push(ask(half, pixel[1]));
        r.push(ask(half, pixel[2]));
        r.push(ask(half, pixel[3]));
        proof {
            let all = half_channels(pixels@, scale, answer_of(*half));
            assert forall|k: int| 0 <= k < 4 * (i + 1) implies #[trigger] r@[k] == all[k] by {
                if k < 4 * i {
                    assert(r@[k] == before[k]);
                } else {
                    assert(k / 4 == i);
                    assert(r@[k] == answer_of(*half)(pixel@[k - 4 * i]));
                }
            }
        }
        i = i + 1;
    }
    assert(r@ =~= half_channels(pixels@, scale, answer_of(*half)));
    r
}

fn copy_pixels(pixels: &Vec<[Single; 4]>) -> (r: Vec<[Single; 4]>)
    ensures
        r@ == pixels@,
{
    let mut r: Vec<[Single; 4]> = Vec::new();
    let mut i: usize = 0;
    while i < pixels.len()
        invariant
            i <= pixels@.len(),
            r@ == pixels@.take(i as int),
        decreases pixels@.len() - i,
    {
        r.push(pixels[i]);
        assert(r@ =~= pixels@.take(i + 1));
        i = i + 1;
    }
    assert(r@ =~= pixels@);
    r
}

/// Makes all copies of an environment image in half precision, and finds the factor that
/// restores its radiance, given a function for the bits of a number in half precision.
pub fn environment_mips<H: Fn(Single) -> u16>(
    image: &EquirectangularImage,
    half: &H,
) -> (r: Result<(Vec<HalfLevel>, Single), RenderError>)
    requires
        answers(*half),
    ensures
        match r {
            Ok((levels, restored)) => {
                &&& image.sound()
                &&& restored == radiance_scale(upload_factor(*image))
                &&& levels@.len() == level_total(image.width, image.height)
                &&& forall|k: int|
                    0 <= k < levels@.len() ==> (#[trigger] levels@[k]).stands_for(
                        *image,
                        answer_of(*half),
                        k,
                    )
            },
            Err(error) => !image.sound() && error == RenderError::InvalidTextureData,
        },
{
    match image.validate() {
        Ok(()) => {},
        Err(error) => {
            return Err(error);
        },
    }
    let scale = upload_scale(find_peak(&image.pixels));
    let count = mip_level_count(image.width, image.height);
    let mut levels: Vec<HalfLevel> = Vec::new();
    let mut width = image.width;
    let mut height = image.height;
    let mut pixels = copy_pixels(&image.pixels);
    let mut level: u32 = 0;
    while level < count
        invariant
            answers(*half),
            scale == upload_factor(*image),
            level <= count == level_total(image.width, image.height),
            width == crate::mips::mip_size(image.width, level as int),
            height == crate::mips::mip_size(image.height, level as int),
            width > 0,
            height > 0,
            pixels@ == level_radiance(*image, level as int),
            pixels@.len() == width * height,
            levels@.len() == level,
            forall|k: int|
                0 <= k < level ==> (#[trigger] levels@[k]).stands_for(
                    *image,
                    answer_of(*half),
                    k,
                ),
        decreases count - level,
    {
        let next_width = next_mip(width);
        let next_height = next_mip(height);
        proof {
            lemma_smaller(width, height, 1);
        }
        let stored: usize = pixels.len();
        assert(next_width * next_height <= stored);
        let channels = list_half_channels(&pixels, scale, half);
        levels.push(HalfLevel { width, height, channels });
        pixels = downsample_hdr(pixels.as_slice(), width, height, next_width, next_height);
        width = next_width;
        height = next_height;
        level = level + 1;
    }
    Ok((levels, radiance_scale(scale)))
}

} // verus!
