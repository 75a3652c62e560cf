//! What cameras, projections and render settings are for, in exact numbers.

use crate::rounding::{
    bounded_results_are_finite, differences_round, exact_results_are_kept, literals_round,
    negations_change_the_sign, neutral_operands, one_is_one, products_follow_signs,
    products_round, quotients_round, results_are_close, results_keep_order, rounds, size,
    small_literals, sums_round, whole_literals, whole_numbers,
};
use crate::mesh::{RenderMesh, RenderVertex};
use crate::plan::SampledScene;
use crate::record::CameraModel;
use crate::scene::{EnvironmentDomain, WeatherAppearance};
use crate::single::{order_is_value_order, Single};
use crate::surface::MaterialSlot;
use crate::view::{
    domain_code, faded_channel, light_color_row, light_frame_of, light_position_row, projected,
    rows_of, sampled_settings, shadow_high, shadow_low, sun_direction, throws_shadow,
    weather_code, PreparedTextures, RaisedColors, RenderCamera, RenderSettings, SceneUniform,
    SunTurns, ViewMatrices,
};
use crate::whole::unit;
use vstd::arithmetic::power2::{lemma2_to64, lemma_pow2_adds, lemma_pow2_pos, pow2};
use vstd::prelude::*;

verus! {

/// A camera whose clipping planes are between a millionth of a metre and a thousand
/// kilometres away, and not more than a million times as far apart.
pub open spec fn has_usual_planes(camera: RenderCamera) -> bool {
    &&& camera.near.is_finite()
    &&& camera.far.is_finite()
    &&& pow2(129) <= camera.near.value()
    &&& camera.near.value() < camera.far.value()
    &&& camera.far.value() <= pow2(169)
    &&& camera.far.value() <= 0x10_0000 * camera.near.value()
}

proof fn lemma_large() -> (x: Single)
    ensures
        x.is_finite(),
        x.value() == pow2(213),
{
    let x = Single { bits: 0x5f80_0000 };
    lemma2_to64();
    crate::single::lemma_magnitude(190, 0x80_0000);
    lemma_pow2_adds(23, 190);
    assert(x.code() == 190 * 0x80_0000 + 0x80_0000);
    x
}

proof fn lemma_depth_error(
    f: int,
    n: int,
    p: int,
    b: int,
    c: int,
    d: int,
    a: int,
    r: int,
    u: int,
)
    requires
        u > 0,
        0 <= p <= u,
        0x80_0000_0000_0000 <= n < f,
        0x80_0000_0000_0000 * u <= f * n,
        f <= 0x10_0000 * n,
        0 <= b <= f,
        0 <= c <= b,
        0 <= d <= f,
        0 <= a,
        0 <= r,
        size(b - (f - n)) * 0x100_0000 <= (f - n) + 0x80_0000,
        size(c * u - p * b) * 0x100_0000 <= p * b + 0x80_0000 * u,
        size(d - (f - c)) * 0x100_0000 <= (f - c) + 0x80_0000,
        size(a * u - f * n) * 0x100_0000 <= f * n + 0x80_0000 * u,
        size(r * d - a * u) * 0x100_0000 <= a * u + 0x80_0000 * d,
    ensures
        size(r * (f * u - p * (f - n)) - f * n * u) * 0x40_0000 <= (r + n) * f * u,
{
    let m = 0x100_0000int;
    let h = 0x80_0000int;
    let e = f * u - p * (f - n);
    let (db, dc, dd) = (b - (f - n), c * u - p * b, d - (f - c));
    let (da, dr) = (a * u - f * n, r * d - a * u);
    assert(p * b <= f * u) by (nonlinear_arith)
        requires
            0 <= p <= u,
            0 <= b <= f,
    ;
    assert(size(p * db) * m <= u * f) by (nonlinear_arith)
        requires
            0 <= p <= u,
            size(db) * m <= f,
            m == 0x100_0000,
    {
        assert(size(p * db) == p * size(db));
        assert(p * (size(db) * m) <= u * f);
    }
    assert(size(u * dd) * m <= u * (f + h)) by (nonlinear_arith)
        requires
            u > 0,
            size(dd) * m <= f + h,
            m == 0x100_0000,
    {
        assert(size(u * dd) == u * size(dd));
        assert(u * (size(dd) * m) <= u * (f + h));
    }
    assert(d * u - e == u * dd - dc - p * db) by (nonlinear_arith)
        requires
            e == f * u - p * (f - n),
            db == b - (f - n),
            dc == c * u - p * b,
            dd == d - (f - c),
    ;
    assert(u * (f + h) == u * f + h * u && f * u == u * f) by (nonlinear_arith);
    assert(size(d * u - e) * m <= 3 * (u * f) + 2 * (h * u));
    assert(h * u <= u * f) by (nonlinear_arith)
        requires
            h <= f,
            u > 0,
    ;
    assert(1000 * (h * u) <= u * f) by (nonlinear_arith)
        requires
            1000 * h <= f,
            u > 0,
    ;
    let g = d * u - e;
    assert(size(r * g) * m * 1000 <= 3002 * (r * (u * f))) by (nonlinear_arith)
        requires
            size(g) * m * 1000 <= 3002 * (u * f),
            r >= 0,
            m == 0x100_0000,
    {
        assert(size(r * g) == r * size(g));
        assert(r * (size(g) * m * 1000) <= r * (3002 * (u * f)));
    }
    assert(r * e - f * n * u == u * dr + u * da - r * g) by (nonlinear_arith)
        requires
            g == d * u - e,
            dr == r * d - a * u,
            da == a * u - f * n,
    ;
    assert(h * d * 1000 <= f * n) by (nonlinear_arith)
        requires
            0 <= d <= f,
            h * 1000 <= n,
            h >= 0,
    {
        assert(h * d <= h * f);
        assert((h * 1000) * f <= n * f);
    }
    assert(h * u == 0x80_0000 * u) by (nonlinear_arith)
        requires
            h == 0x80_0000,
    ;
    assert(h * u * 1000 <= f * n);
    assert(da * m <= 1001 * (f * n));
    assert(a * u * 1000 <= 1001 * (f * n));
    assert((size(dr) + size(da)) * m * 1000 <= 2010 * (f * n));
    assert((size(u * dr) + size(u * da)) * m * 1000 <= 2010 * (f * n * u)) by (nonlinear_arith)
        requires
            (size(dr) + size(da)) * m * 1000 <= 2010 * (f * n),
            u > 0,
            m == 0x100_0000,
    {
        assert(size(u * dr) == u * size(dr));
        assert(size(u * da) == u * size(da));
        assert(u * ((size(dr) + size(da)) * m * 1000) <= u * (2010 * (f * n)));
    }
    assert((r + n) * f * u == r * (u * f) + f * n * u) by (nonlinear_arith);
    assert(r * (u * f) >= 0 && f * n * u >= 0) by (nonlinear_arith)
        requires
            r >= 0,
            u > 0,
            f > n,
            n > 0,
    {
        assert(u * f > 0);
        assert(f * n > 0);
    }
}

/// Turning a depth into a distance undoes the projection: the distance `r` of a depth
/// satisfies `r * (far - depth * (far - near)) = far * near`, up to one part in `2^22` of
/// `far * (r + near)`.
pub proof fn distances_undo_depths(camera: RenderCamera, depth: Single)
    requires
        has_usual_planes(camera),
        depth.is_finite(),
        0 <= depth.value() <= unit(),
    ensures
        ({
            let (f, n) = (camera.far.value(), camera.near.value());
            camera.linearize_depth(depth) matches Some(r) && {
                &&& r.is_finite()
                &&& r.value() >= 0
                &&& size(
                    r.value() * (f * unit() - depth.value() * (f - n)) - f * n * unit(),
                ) * 0x40_0000 <= (r.value() + n) * f * unit()
            }
        }),
{
    one_is_one();
    lemma2_to64();
    let u = unit();
    let (far, near) = (camera.far, camera.near);
    let (f, n, p) = (far.value(), near.value(), depth.value());
    lemma_pow2_adds(64, 65);
    lemma_pow2_pos(65);
    lemma_pow2_adds(129, 20);
    lemma_pow2_pos(129);
    assert(pow2(129) == 0x1_0000_0000_0000_0000 * pow2(65));
    order_is_value_order(Single::zero(), depth);
    order_is_value_order(depth, Single::one());
    order_is_value_order(near, Single::zero());
    order_is_value_order(far, near);
    let wide = far.minus(near);
    let b = wide.value();
    differences_round(far, near);
    bounded_results_are_finite(wide, f - n, 1, far);
    results_are_close(wide, f - n, 1);
    let part = depth.times(wide);
    let c = part.value();
    products_round(depth, wide);
    assert(0 <= p * b <= b * u) by (nonlinear_arith)
        requires
            0 <= p <= u,
            0 <= b,
    ;
    bounded_results_are_finite(part, p * b, u, wide);
    results_are_close(part, p * b, u);
    let rest = far.minus(part);
    let d = rest.value();
    differences_round(far, part);
    bounded_results_are_finite(rest, f - c, 1, far);
    results_are_close(rest, f - c, 1);
    let product = far.times(near);
    let a = product.value();
    let large = lemma_large();
    products_round(far, near);
    lemma_pow2_adds(169, 169);
    lemma_pow2_adds(213, 149);
    vstd::arithmetic::power2::lemma_pow2_strictly_increases(338, 362);
    assert(0 <= f * n <= pow2(169) * pow2(169)) by (nonlinear_arith)
        requires
            0 <= f <= pow2(169),
            0 <= n <= pow2(169),
    ;
    bounded_results_are_finite(product, f * n, u, large);
    results_are_close(product, f * n, u);
    assert(d * 2 >= n) by {
        let m = 0x100_0000int;
        assert((f - b) * m >= n * m - f);
        assert((f - c) * m >= n * m - f);
        assert(d * m >= n * m - 2 * f - 0x80_0000);
    }
    let r = product.over(rest);
    quotients_round(product, rest);
    lemma_pow2_adds(64, 1);
    assert(0x80_0000_0000_0000 * u <= f * n) by (nonlinear_arith)
        requires
            f >= n,
            n >= pow2(129),
            u == pow2(129) * 0x10_0000,
            pow2(129) == 0x1_0000_0000_0000_0000 * pow2(65),
            pow2(65) >= 0x1_0000_0000_0000_0000,
    {
        assert(f * n >= pow2(129) * pow2(129));
        assert(pow2(129) >= 0x1_0000_0000_0000_0000 * 0x1_0000_0000_0000_0000);
        assert(pow2(129) * pow2(129) >= (0x1_0000_0000_0000_0000 * 0x1_0000_0000_0000_0000)
            * pow2(129));
    }
    assert(a * u <= 2 * (f * n));
    assert(a >= 0);
    lemma_pow2_adds(169, 44);
    lemma_pow2_adds(32, 12);
    assert(size(a * u) <= size(large.value()) * d) by (nonlinear_arith)
        requires
            0 <= a * u <= 2 * (f * n),
            n <= 2 * d,
            n > 0,
            0 < f <= pow2(169),
            large.value() == pow2(169) * pow2(44),
            pow2(44) >= 4,
    {
        assert(f * n <= f * (2 * d));
        assert(f * d <= pow2(169) * d);
        assert(pow2(169) * d * 4 <= pow2(169) * d * pow2(44));
        assert(pow2(169) * d * pow2(44) == (pow2(169) * pow2(44)) * d);
    }
    assert(a * u >= 0) by (nonlinear_arith)
        requires
            a >= 0,
            u > 0,
    ;
    bounded_results_are_finite(r, a * u, d, large);
    results_are_close(r, a * u, d);
    lemma_depth_error(f, n, p, b, c, d, a, r.value(), u);
}

/// The projection fits the calibration: its scales are twice the focal lengths over the size
/// of the image, it keeps the principal point of a centered camera in the middle, looks along
/// the negative axis, and maps the clipping planes by one scale, so that the near plane has
/// no depth.
pub proof fn projections_fit_the_calibration(camera: RenderCamera)
    requires
        has_usual_planes(camera),
        0 < camera.intrinsics.width < 0x100_0000,
        0 < camera.intrinsics.height < 0x100_0000,
        camera.intrinsics.fx.is_finite(),
        camera.intrinsics.fy.is_finite(),
        camera.intrinsics.fx.value() > 0,
        camera.intrinsics.fy.value() > 0,
        Single::ratio(2, 1).times(camera.intrinsics.fx).is_finite(),
        Single::ratio(2, 1).times(camera.intrinsics.fy).is_finite(),
        camera.intrinsics.skew.value() == 0,
        camera.intrinsics.skew.is_finite(),
        camera.intrinsics.cx.is_finite(),
        camera.intrinsics.cy.is_finite(),
    ensures
        ({
            let k = camera.intrinsics;
            let c = camera.projection_columns();
            let (f, n) = (camera.far.value(), camera.near.value());
            let zero = Single::zero();
            &&& rounds(c[0][0], 2 * k.fx.value() * unit(), k.width * unit())
            &&& rounds(c[1][1], 2 * k.fy.value() * unit(), k.height * unit())
            &&& 2 * k.cx.value() == k.width * unit() ==> c[2][0].value() == 0
            &&& 2 * k.cy.value() == k.height * unit() ==> c[2][1].value() == 0
            &&& c[2][3].value() == -unit()
            &&& c[3][3].value() == 0
            &&& c[1][0].value() == 0
            &&& c[0][1] == zero && c[0][2] == zero && c[0][3] == zero && c[1][2] == zero
                && c[1][3] == zero && c[3][0] == zero && c[3][1] == zero
            &&& c[2][2].is_finite()
            &&& c[2][2].value() < 0
            &&& rounds(c[3][2], c[2][2].value() * n, unit())
            &&& exists|wide: Single| #[trigger]
                rounds(wide, f - n, 1) && rounds(c[2][2].negated(), f * unit(), wide.value())
        }),
{
    one_is_one();
    small_literals();
    let u = unit();
    let k = camera.intrinsics;
    let two = Single::ratio(2, 1);
    let (w, h) = (Single::from_u32(k.width), Single::from_u32(k.height));
    whole_numbers(k.width);
    whole_numbers(k.height);
    let (a, b) = (k.width as int, k.height as int);
    assert(a * u > 0 && b * u > 0) by (nonlinear_arith)
        requires
            a > 0,
            b > 0,
            u > 0,
    ;
    crate::framing_laws::lemma_doubled(k.fx);
    crate::framing_laws::lemma_doubled(k.fy);
    quotients_round(two.times(k.fx), w);
    quotients_round(two.times(k.fy), h);
    whole_literals((-2) as i32);
    whole_literals((-1) as i32);
    let minus = Single::ratio((-2) as i32, 1);
    neutral_operands(minus, k.skew);
    quotients_round(minus.times(k.skew), w);
    assert(0 * u == 0 && 0 * (a * u) == 0);
    exact_results_are_kept(minus.times(k.skew).over(w), 0, a * u, Single::zero());
    if 2 * k.cx.value() == a * u {
        lemma_centered(k.cx, w, a);
    }
    if 2 * k.cy.value() == b * u {
        lemma_centered(k.cy, h, b);
        let q = two.times(k.cy).over(h);
        neutral_operands(q, Single::zero());
    }
    lemma_depth_scale(camera);
    let scale = camera.far.over(camera.near.minus(camera.far));
    products_round(scale, camera.near);
}

proof fn lemma_centered(c: Single, w: Single, n: int)
    requires
        c.is_finite(),
        w.is_finite(),
        w.value() == n * unit(),
        2 * c.value() == n * unit(),
        0 < n < 0x100_0000,
    ensures
        Single::ratio(2, 1).times(c).over(w) == Single::one(),
        Single::one().minus(Single::ratio(2, 1).times(c).over(w)).value() == 0,
        Single::ratio(2, 1).times(c).over(w).minus(Single::one()).value() == 0,
{
    one_is_one();
    small_literals();
    let u = unit();
    let two = Single::ratio(2, 1);
    assert(n * u > 0) by (nonlinear_arith)
        requires
            n > 0,
            u > 0,
    ;
    products_round(two, c);
    assert((2 * u) * c.value() == w.value() * u) by (nonlinear_arith)
        requires
            2 * c.value() == n * u,
            w.value() == n * u,
    ;
    exact_results_are_kept(two.times(c), (2 * u) * c.value(), u, w);
    quotients_round(w, w);
    assert(w.value() * u == u * w.value()) by (nonlinear_arith);
    exact_results_are_kept(w.over(w), w.value() * u, w.value(), Single::one());
    neutral_operands(Single::one(), Single::zero());
}

proof fn lemma_depth_scale(camera: RenderCamera)
    requires
        has_usual_planes(camera),
    ensures
        ({
            let scale = camera.far.over(camera.near.minus(camera.far));
            let wide = camera.far.minus(camera.near);
            let (f, n) = (camera.far.value(), camera.near.value());
            &&& scale.is_finite()
            &&& scale.value() < 0
            &&& rounds(wide, f - n, 1)
            &&& rounds(scale.negated(), f * unit(), wide.value())
        }),
{
    one_is_one();
    let u = unit();
    let (far, near) = (camera.far, camera.near);
    let (f, n) = (far.value(), near.value());
    let wide = far.minus(near);
    let back = near.minus(far);
    differences_round(far, near);
    differences_round(near, far);
    bounded_results_are_finite(wide, f - n, 1, far);
    lemma2_to64();
    lemma_pow2_adds(64, 65);
    lemma_pow2_pos(129);
    crate::single::lemma_nearest_exists(f - n, 1);
    let least = Single { bits: 1 };
    assert(crate::single::magnitude(1) == 1);
    assert(least.value() == 1);
    assert(rounds(least, 1, 1)) by {
        neutral_operands(least, Single::zero());
        sums_round(least, Single::zero());
    }
    results_keep_order(least, wide, 1, f - n, 1);
    order_is_value_order(least, wide);
    negations_change_the_sign(wide);
    assert(back.rank() == -wide.rank());
    assert(back == wide.negated()) by {
        assert(crate::single::magnitude(0) == 0);
    }
    let scale = far.over(back);
    let mirror = far.over(wide);
    assert(scale == mirror.negated()) by {
        reveal(Single::spec_over);
        crate::single::lemma_nearest_exists(
            crate::single::magnitude(far.code()) * pow2(149),
            crate::single::magnitude(wide.code()),
        );
    }
    negations_change_the_sign(mirror);
    quotients_round(far, wide);
    let large = lemma_large();
    let b = wide.value();
    // the planes are at least half of one part in a million apart
    assert(f * u <= large.value() * b) by {
        results_are_close(wide, f - n, 1);
        lemma_gap(far, near);
        lemma_pow2_adds(149, 64);
        assert(f * u <= (0x1_0000_0000_0000_0000 * u) * b) by (nonlinear_arith)
            requires
                f <= 0x1_0000_0000_0000_0000 * b,
                u > 0,
        ;
    }
    assert(f * u >= 0) by (nonlinear_arith)
        requires
            f > 0,
            u > 0,
    ;
    bounded_results_are_finite(mirror, f * u, b, large);
    // a far plane is beyond the gap, so that the scale is more than one
    assert(rounds(Single::one(), u * b, b)) by {
        neutral_operands(wide, Single::zero());
        quotients_round(wide, wide);
        assert(b * u == u * b) by (nonlinear_arith);
        exact_results_are_kept(wide.over(wide), b * u, b, Single::one());
    }
    assert(u * b <= f * u) by (nonlinear_arith)
        requires
            b <= f,
            u > 0,
    ;
    results_keep_order(Single::one(), mirror, u * b, f * u, b);
    order_is_value_order(Single::one(), mirror);
}

proof fn lemma_gap(far: Single, near: Single)
    requires
        far.is_finite(),
        near.is_finite(),
        pow2(129) <= near.value() < far.value(),
        far.value() <= 0x10_0000 * near.value(),
    ensures
        far.value() <= 0x1_0000_0000_0000_0000 * far.minus(near).value(),
{
    let (f, n) = (far.value(), near.value());
    let wide = far.minus(near);
    differences_round(far, near);
    one_is_one();
    bounded_results_are_finite(wide, f - n, 1, far);
    results_are_close(wide, f - n, 1);
    // neighbouring numbers of this size are at least one part in 2^24 apart
    let c = near.code();
    let (t, m) = crate::single::lemma_split(c);
    let w = pow2(t) as int;
    lemma_pow2_pos(t);
    lemma2_to64();
    lemma_pow2_adds(64, 65);
    lemma_pow2_pos(65);
    assert(pow2(129) >= 0x1_0000_0000_0000_0000) by (nonlinear_arith)
        requires
            pow2(129) == 0x1_0000_0000_0000_0000 * pow2(65),
            pow2(65) >= 1,
    ;
    if t == 0 {
        assert(m * 1 == m);
    }
    assert(crate::single::magnitude(0) == 0);
    if far.code() > c + 1 {
        crate::single::lemma_magnitude_increases(c + 1, far.code());
    } else if far.code() <= c {
        if far.code() < c {
            crate::single::lemma_magnitude_increases(far.code(), c);
        }
    }
    assert(f - n >= w) by (nonlinear_arith)
        requires
            f >= (m + 1) * w,
            n == m * w,
    ;
    assert(n <= 0x100_0000 * w) by (nonlinear_arith)
        requires
            n == m * w,
            m <= 0x100_0000,
            w > 0,
    ;
    assert(f <= 0x100_0000_0000_0 * (f - n) * 16);
    assert(2 * wide.value() >= f - n) by {
        assert(w >= 0x1_0000_0000) by {
            assert(n >= 0x1_0000_0000_0000_0000);
        }
    }
}

/// A point is drawn where it is: in the middle of the image where it is straight ahead, at
/// the right edge where it is as far to the right as the frame reaches and at the left edge
/// where it is as far to the left, and likewise at the top and at the bottom, with pixels
/// counted from the top left corner.
pub proof fn points_are_drawn_where_they_are(clip: [Single; 4], width: u32, height: u32)
    requires
        clip[0].is_finite(),
        clip[1].is_finite(),
        clip[2].is_finite(),
        clip[3].is_finite(),
        clip[3].value() > 0,
        width < 0x100_0000,
        height < 0x100_0000,
    ensures
        ({
            let p = projected(clip, width, height);
            let (x, y, z, w) = (
                clip[0].value(),
                clip[1].value(),
                clip[2].value(),
                clip[3].value(),
            );
            &&& x == 0 ==> 2 * p.pixel[0].value() == width * unit()
            &&& x == w ==> p.pixel[0].value() == width * unit()
            &&& x == -w ==> p.pixel[0].value() == 0
            &&& y == 0 ==> 2 * p.pixel[1].value() == height * unit()
            &&& y == w ==> p.pixel[1].value() == 0
            &&& y == -w ==> p.pixel[1].value() == height * unit()
            &&& rounds(p.depth, z * unit(), w)
            &&& size(x) <= w && size(y) <= w && 0 <= z <= w ==> p.in_frame
            &&& z >= 2 * w || z < 0 && z <= -w || size(x) >= 2 * w || size(y) >= 2 * w
                ==> !p.in_frame
        }),
{
    one_is_one();
    order_is_value_order(clip[3], Single::zero());
    let w = clip[3].value();
    whole_literals((-1) as i32);
    whole_numbers(width);
    whole_numbers(height);
    lemma_axis(clip[0], clip[3], width);
    lemma_axis(clip[1], clip[3], height);
    lemma_axis(clip[2], clip[3], 1);
}

spec fn across(t: Single, n: u32) -> Single {
    t.times(Single::ratio(5, 10)).plus(Single::ratio(5, 10)).times(Single::from_u32(n))
}

spec fn down(t: Single, n: u32) -> Single {
    Single::ratio(5, 10).minus(t.times(Single::ratio(5, 10))).times(Single::from_u32(n))
}

proof fn lemma_axis(x: Single, w: Single, n: u32)
    requires
        x.is_finite(),
        w.is_finite(),
        w.value() > 0,
        n < 0x100_0000,
    ensures
        ({
            let t = x.over(w);
            let (minus, one, zero) = (Single::ratio((-1) as i32, 1), Single::one(), Single::zero());
            &&& rounds(t, x.value() * unit(), w.value())
            &&& size(x.value()) <= w.value() ==> t.within(minus, one)
            &&& 0 <= x.value() <= w.value() ==> t.within(zero, one)
            &&& x.value() >= 2 * w.value() ==> !t.at_most(one)
            &&& x.value() <= -2 * w.value() ==> !minus.at_most(t)
            &&& x.value() <= -w.value() ==> !zero.at_most(t)
            &&& x.value() == 0 ==> 2 * across(t, n).value() == n * unit() && 2 * down(t, n).value()
                == n * unit()
            &&& x.value() == w.value() ==> across(t, n).value() == n * unit() && down(t, n).value()
                == 0
            &&& x.value() == -w.value() ==> across(t, n).value() == 0 && down(t, n).value() == n
                * unit()
        }),
{
    one_is_one();
    small_literals();
    whole_literals((-1) as i32);
    let u = unit();
    let (one, zero, half, two) = (
        Single::one(),
        Single::zero(),
        Single::ratio(5, 10),
        Single::ratio(2, 1),
    );
    let minus = Single::ratio((-1) as i32, 1);
    let t = x.over(w);
    let (a, b) = (x.value(), w.value());
    quotients_round(x, w);
    lemma_held(one, b);
    lemma_held(zero, b);
    lemma_held(minus, b);
    lemma_held(two, b);
    whole_literals((-2) as i32);
    let below = Single::ratio((-2) as i32, 1);
    lemma_held(below, b);
    assert(a >= 0 ==> a * u >= 0) by (nonlinear_arith)
        requires
            u > 0,
    ;
    assert(a <= b ==> a * u <= u * b) by (nonlinear_arith)
        requires
            u > 0,
    ;
    assert(a >= -b ==> a * u >= (-1 * u) * b) by (nonlinear_arith)
        requires
            u > 0,
    ;
    assert(a <= -b ==> a * u <= (-1 * u) * b) by (nonlinear_arith)
        requires
            u > 0,
    ;
    assert(a >= 2 * b ==> a * u >= (2 * u) * b) by (nonlinear_arith)
        requires
            u > 0,
    ;
    assert(a <= -2 * b ==> a * u <= (-2 * u) * b) by (nonlinear_arith)
        requires
            u > 0,
    ;
    order_is_value_order(one, two);
    order_is_value_order(below, minus);
    order_is_value_order(minus, zero);
    if a <= b {
        results_keep_order(t, one, a * u, u * b, b);
    }
    if a >= 0 {
        assert(0 * b == 0);
        results_keep_order(zero, t, 0, a * u, b);
    }
    if a >= -b {
        results_keep_order(minus, t, (-1 * u) * b, a * u, b);
    }
    if a <= -b {
        results_keep_order(t, minus, a * u, (-1 * u) * b, b);
    }
    if a >= 2 * b {
        results_keep_order(two, t, (2 * u) * b, a * u, b);
    }
    if a <= -2 * b {
        results_keep_order(t, below, a * u, (-2 * u) * b, b);
    }
    let size_n = Single::from_u32(n);
    whole_numbers(n);
    crate::framing_laws::lemma_halved(n);
    crate::single::sums_and_products_commute(size_n, half);
    neutral_operands(half, zero);
    neutral_operands(size_n, zero);
    sums_round(half, half);
    exact_results_are_kept(half.plus(half), u, 1, one);
    if a == 0 {
        assert(0 * u == 0 && 0 * b == 0);
        exact_results_are_kept(t, 0, b, zero);
        neutral_operands(half, t);
        neutral_operands(half, t.times(half));
    }
    if a == b {
        assert(a * u == u * b) by (nonlinear_arith)
            requires
                a == b,
        ;
        exact_results_are_kept(t, u * b, b, one);
        neutral_operands(size_n, half.minus(half));
    }
    if a == -b {
        assert(a * u == (-1 * u) * b) by (nonlinear_arith)
            requires
                a == -b,
        ;
        exact_results_are_kept(t, (-1 * u) * b, b, minus);
        negations_change_the_sign(one);
        assert(minus == one.negated()) by {
            assert(crate::single::magnitude(0) == 0);
            crate::bounds::literals_of_whole_numbers(1, 1);
        }
        products_follow_signs(one, half);
        negations_change_the_sign(half);
        sums_round(half.negated(), half);
        exact_results_are_kept(half.negated().plus(half), 0, 1, zero);
        neutral_operands(size_n, half.negated().plus(half));
        differences_round(half, half.negated());
        exact_results_are_kept(half.minus(half.negated()), u, 1, one);
    }
}

proof fn lemma_held(x: Single, b: int)
    requires
        x.is_finite(),
        b > 0,
    ensures
        rounds(x, x.value() * b, b),
{
    let m = size(x.value());
    crate::whole::lemma_code_is_nearest(x.code());
    assert(crate::single::magnitude(0) == 0);
    if x.code() > 0 {
        crate::single::lemma_magnitude_increases(0, x.code());
    }
    crate::bounds::lemma_same_fraction(m, 1, b);
    assert(x.value() * b == m * b || x.value() * b == -(m * b)) by (nonlinear_arith)
        requires
            m == x.value() || m == -x.value(),
    ;
    assert(x.value() * b < 0 <==> x.value() < 0) by (nonlinear_arith)
        requires
            b > 0,
    ;
    assert(1 * b == b);
}

/// Weathering moves a colour towards middle grey and never past it: an unweathered channel
/// and a grey one keep their value.
pub proof fn weathering_greys(channel: Single, weathering: Single)
    requires
        crate::camera_laws::is_share(channel),
        crate::camera_laws::is_share(weathering),
    ensures
        weathering.value() == 0 ==> faded_channel(channel, weathering).equals(channel),
        2 * channel.value() == unit() ==> faded_channel(channel, weathering).equals(channel),
        2 * channel.value() <= unit() ==> channel.at_most(faded_channel(channel, weathering)),
        2 * channel.value() >= unit() ==> faded_channel(channel, weathering).at_most(channel),
{
    one_is_one();
    small_literals();
    let half = Single::ratio(5, 10);
    let share = Single::ratio(24, 100);
    let u = unit();
    let zero = Single::zero();
    literals_round(24, 100);
    bounded_results_are_finite(share, 24 * u, 100, Single::one());
    results_are_close(share, 24 * u, 100);
    let gap = half.minus(channel);
    differences_round(half, channel);
    let g = half.value() - channel.value();
    bounded_results_are_finite(gap, g, 1, Single::one());
    results_are_close(gap, g, 1);
    crate::camera_laws::lemma_progressed(gap, zero, weathering);
    neutral_operands(gap, zero);
    let faded = gap.times(weathering);
    crate::camera_laws::lemma_progressed(faded, zero, share);
    neutral_operands(faded, zero);
    let moved = faded.times(share);
    sums_round(channel, moved);
    sums_round(channel, zero);
    neutral_operands(channel, zero);
    order_is_value_order(channel.plus(zero), channel);
    let (c, m) = (channel.value(), moved.value());
    if weathering.value() == 0 {
        neutral_operands(gap, weathering);
        neutral_operands(share, faded);
        neutral_operands(channel, moved);
        order_is_value_order(channel.plus(moved), channel);
    }
    if g == 0 {
        exact_results_are_kept(gap, 0, 1, zero);
        neutral_operands(weathering, gap);
        neutral_operands(share, faded);
        neutral_operands(channel, moved);
        order_is_value_order(channel.plus(moved), channel);
    }
    if g >= 0 {
        results_keep_order(channel.plus(zero), channel.plus(moved), c, c + m, 1);
    }
    if g <= 0 {
        results_keep_order(channel.plus(moved), channel.plus(zero), c + m, c, 1);
    }
}

/// The sun is as high as its elevation says and in the direction of its azimuth.
pub proof fn the_sun_stands_where_its_angles_say(sun: SunTurns)
    requires
        sun.azimuth.cosine.is_finite(),
        sun.azimuth.sine.is_finite(),
        sun.elevation.cosine.is_finite(),
    ensures
        sun_direction(sun)[1] == sun.elevation.sine,
        rounds(
            sun_direction(sun)[0],
            sun.elevation.cosine.value() * sun.azimuth.cosine.value(),
            unit(),
        ),
        rounds(
            sun_direction(sun)[2],
            sun.elevation.cosine.value() * sun.azimuth.sine.value(),
            unit(),
        ),
{
    products_round(sun.elevation.cosine, sun.azimuth.cosine);
    products_round(sun.elevation.cosine, sun.azimuth.sine);
}

/// The settings of a sampled scene are those of the scene and its camera: of the size of the
/// image, seen by the very camera, lit from the sun's direction, and opaque.
pub proof fn settings_show_the_sampled_scene(
    scene: &SampledScene,
    camera: CameraModel,
    sun: SunTurns,
    raised: RaisedColors,
)
    ensures
        ({
            let made = sampled_settings(scene, camera, sun, raised);
            &&& made.width == camera.intrinsics.width
            &&& made.height == camera.intrinsics.height
            &&& made.camera.intrinsics == camera.intrinsics
            &&& made.camera.world_from_camera == camera.world_from_camera
            &&& made.light_direction == sun_direction(sun)
            &&& made.roof_color[3] == Single::one()
            &&& made.wall_color[3] == Single::one()
            &&& made.ground_color[3] == Single::one()
            &&& scene.composition.ground_material matches Some(material)
                ==> made.ground_roughness == material.roughness
            &&& scene.wall_material.base_color_srgb == scene.roof_material.base_color_srgb
                && scene.wall_material.weathering == scene.roof_material.weathering && raised.wall
                == raised.roof ==> made.wall_color == made.roof_color
        }),
{
}

/// The clipping planes of every camera are five centimetres and two hundred and fifty metres
/// away, and a camera of a model is where the model is.
pub proof fn cameras_clip_near_and_far(model: CameraModel)
    ensures
        RenderCamera::of_model(model).far.value() == 250 * unit(),
        rounds(RenderCamera::of_model(model).near, 5 * unit(), 100),
        has_usual_planes(RenderCamera::of_model(model)),
        RenderCamera::of_model(model).intrinsics == model.intrinsics,
        RenderCamera::of_model(model).world_from_camera == model.world_from_camera,
{
    one_is_one();
    whole_literals(250);
    literals_round(5, 100);
    let near = RenderCamera::of_model(model).near;
    let u = unit();
    bounded_results_are_finite(near, 5 * u, 100, Single::one());
    results_are_close(near, 5 * u, 100);
    lemma2_to64();
    lemma_pow2_adds(129, 20);
    lemma_pow2_adds(149, 20);
    lemma_pow2_adds(64, 65);
    lemma_pow2_pos(65);
    lemma_pow2_pos(129);
    let q = pow2(129) as int;
    assert(u == q * 0x10_0000);
    assert(q >= 0x1_0000_0000_0000_0000) by (nonlinear_arith)
        requires
            q == 0x1_0000_0000_0000_0000 * pow2(65),
            pow2(65) >= 1,
    ;
}

/// The tangent of half of a vertical field of view is half of the height over the focal
/// length.
pub proof fn lenses_can_be_read_back(camera: RenderCamera)
    requires
        camera.intrinsics.height < 0x100_0000,
        camera.intrinsics.fy.is_finite(),
        camera.intrinsics.fy.value() > 0,
    ensures
        exists|half: int| #[trigger]
            rounds(camera.tan_half_fov(), half * unit(), camera.intrinsics.fy.value()) && 2 * half
                == camera.intrinsics.height * unit(),
{
    let half = Single::from_u32(camera.intrinsics.height).times(Single::ratio(5, 10));
    crate::framing_laws::lemma_halved(camera.intrinsics.height);
    quotients_round(half, camera.intrinsics.fy);
    assert(rounds(
        camera.tan_half_fov(),
        half.value() * unit(),
        camera.intrinsics.fy.value(),
    ));
}

/// A look-at camera stands at its position, has square pixels and its principal point in the
/// middle, and a focal length that spans the height at twice the tangent of half of the
/// vertical field of view.
pub proof fn look_at_cameras_are_calibrated(
    position: [Single; 3],
    target: [Single; 3],
    rotation: [Single; 4],
    width: u32,
    height: u32,
    tan_half_fov: Single,
)
    requires
        0 < width < 0x100_0000,
        0 < height < 0x100_0000,
        tan_half_fov.is_finite(),
        unit() <= 0x1000 * tan_half_fov.value() <= 0x100_0000 * unit(),
    ensures
        ({
            let camera = RenderCamera::look_at(
                position,
                target,
                rotation,
                width,
                height,
                tan_half_fov,
            );
            let k = camera.intrinsics;
            &&& camera.position() == position
            &&& k.width == width && k.height == height
            &&& k.fx == k.fy
            &&& k.skew == Single::zero()
            &&& 2 * k.cx.value() == width * unit()
            &&& 2 * k.cy.value() == height * unit()
            &&& k.fx.is_finite()
            &&& rounds(k.fx, height * unit() * unit(), 2 * tan_half_fov.value())
        }),
{
    one_is_one();
    small_literals();
    let u = unit();
    whole_numbers(height);
    whole_numbers(width);
    crate::framing_laws::lemma_halved(width);
    crate::framing_laws::lemma_halved(height);
    let two = Single::ratio(2, 1);
    let h = Single::from_u32(height);
    let t = tan_half_fov.value();
    products_round(two, tan_half_fov);
    let large = lemma_large();
    lemma2_to64();
    lemma_pow2_adds(149, 64);
    assert(size((2 * u) * t) <= large.value() * u) by (nonlinear_arith)
        requires
            0 <= t <= 0x1000 * u,
            large.value() == u * 0x1_0000_0000_0000_0000,
            u > 0,
    {
        assert((2 * u) * t <= (2 * u) * (0x1000 * u));
    }
    bounded_results_are_finite(two.times(tan_half_fov), (2 * u) * t, u, large);
    crate::framing_laws::lemma_doubled(tan_half_fov);
    quotients_round(h, two.times(tan_half_fov));
    let n = height as int;
    let fx = h.over(two.times(tan_half_fov));
    assert(0 <= n * u * u <= large.value() * (2 * t)) by (nonlinear_arith)
        requires
            0 <= n < 0x100_0000,
            u <= 0x1000 * t,
            large.value() == u * 0x1_0000_0000_0000_0000,
            u > 0,
    {
        assert(n * u * u <= 0x100_0000 * u * u);
        assert(u * u <= u * (0x1000 * t));
        assert(0 <= n * u * u);
    }
    bounded_results_are_finite(fx, n * u * u, 2 * t, large);
}

/// Everything that stands throws a shadow, and what lies on the ground does not.
pub proof fn what_stands_throws_a_shadow(vertex: RenderVertex)
    ensures
        throws_shadow(vertex) <==> !(vertex.material == MaterialSlot::Ground || vertex.material
            == MaterialSlot::Asphalt || vertex.material == MaterialSlot::Marking),
{
}

/// The shadow view reaches every vertex that throws a shadow.
pub proof fn shadows_reach_all_that_throws_them(vertices: Seq<RenderVertex>, n: int, i: int, a: int)
    requires
        0 <= i < n <= vertices.len(),
        0 <= a < 3,
        throws_shadow(vertices[i]),
        forall|j: int|
            0 <= j < vertices.len() ==> crate::scene::all_finite(
                (#[trigger] vertices[j]).position,
            ),
    ensures
        shadow_low(vertices, n)@[a].at_most(vertices[i].position@[a]),
        vertices[i].position@[a].at_most(shadow_high(vertices, n)@[a]),
        !shadow_low(vertices, n)@[a].is_nan(),
        !shadow_high(vertices, n)@[a].is_nan(),
    decreases n,
{
    lemma_corners_hold(vertices, n - 1, a);
    assert(crate::scene::all_finite(vertices[n - 1].position));
    if i < n - 1 {
        shadows_reach_all_that_throws_them(vertices, n - 1, i, a);
    }
}

proof fn lemma_corners_hold(vertices: Seq<RenderVertex>, n: int, a: int)
    requires
        0 <= n <= vertices.len(),
        0 <= a < 3,
        forall|j: int|
            0 <= j < vertices.len() ==> crate::scene::all_finite(
                (#[trigger] vertices[j]).position,
            ),
    ensures
        !shadow_low(vertices, n)@[a].is_nan(),
        !shadow_high(vertices, n)@[a].is_nan(),
    decreases n,
{
    if n > 0 {
        lemma_corners_hold(vertices, n - 1, a);
        assert(crate::scene::all_finite(vertices[n - 1].position));
    }
}

/// Shader numbers tell domains and weathers apart, and rows keep their order.
pub proof fn shader_numbers_are_distinct(
    a: EnvironmentDomain,
    b: EnvironmentDomain,
    c: WeatherAppearance,
    d: WeatherAppearance,
    values: [u32; 16],
    i: int,
)
    requires
        0 <= i < 16,
    ensures
        domain_code(a) == domain_code(b) ==> a == b,
        weather_code(c).value() == weather_code(d).value() ==> c == d,
        rows_of(values)@[i / 4]@[i % 4] == values@[i],
{
    one_is_one();
    whole_literals(2);
    whole_literals(3);
    whole_literals(4);
}

/// A local light hands on its position, its range, its colour and its intensity.
pub proof fn lights_hand_on_what_they_are(light: crate::scene::SceneLight, i: int)
    requires
        0 <= i < 3,
    ensures
        light_position_row(light)@[i] == light.position@[i],
        light_position_row(light)[3] == light.range_m,
        light_color_row(light)@[i] == light.color@[i],
        light_color_row(light)[3] == light.intensity,
{
}

/// The shader gets the colours, the roughness and the light of the settings, each in its own
/// place.
pub proof fn shaders_get_the_settings(
    uniform: SceneUniform,
    settings: RenderSettings,
    mesh: &RenderMesh,
    textures: &PreparedTextures,
    matrices: ViewMatrices,
)
    requires
        uniform.describes(settings, mesh, textures, matrices),
    ensures
        uniform.roof_color == settings.roof_color,
        uniform.wall_color == settings.wall_color,
        uniform.ground_color == settings.ground_color,
        uniform.occluder_color == settings.occluder_color,
        uniform.background_color == settings.background_color,
        uniform.light_direction[3] == settings.direct_light,
        uniform.lighting[0] == settings.ambient_light,
        uniform.lighting[2] == mesh.environment.cloud_cover,
        uniform.lighting[3] == mesh.environment.haze,
        uniform.environment[0] == mesh.environment.environment_exposure,
        uniform.environment[2] == mesh.environment.shadow_softness,
        uniform.environment[3] == mesh.environment.ground_wetness,
        uniform.color_grading[0] == mesh.environment.exposure_ev,
        uniform.color_grading[1] == mesh.environment.color_temperature_kelvin,
        uniform.atmosphere[0] == mesh.environment.visibility_km,
        uniform.atmosphere[1] == mesh.environment.environment_yaw_radians,
        uniform.atmosphere[3] == textures.environment_radiance_scale,
        uniform.material_roughness[0] == settings.roof_roughness,
        uniform.material_roughness[1] == settings.wall_roughness,
        uniform.material_roughness[2] == settings.ground_roughness,
        uniform.camera_position[0] == settings.camera.world_from_camera.translation.x,
        uniform.camera_position[1] == settings.camera.world_from_camera.translation.y,
        uniform.camera_position[2] == settings.camera.world_from_camera.translation.z,
        uniform.view_projection == matrices.view_projection,
        uniform.inverse_view_projection == matrices.inverse_view_projection,
        uniform.light_view_projection == matrices.light_view_projection,
        uniform.texture_flags[0] == textures.material_mask,
        uniform.texture_flags[1] == 1 <==> textures.has_environment,
        mesh.lights@.len() <= 4 ==> uniform.texture_flags[2] == mesh.lights@.len(),
{
}

/// Four finite channels.
pub open spec fn is_color(c: [Single; 4]) -> bool {
    c[0].is_finite() && c[1].is_finite() && c[2].is_finite() && c[3].is_finite()
}

/// Settings are accepted exactly where the image has a size, every colour and the direction
/// of the light are finite, every roughness is between none and all, and no light is below
/// none.
pub proof fn accepted_settings_can_be_drawn(s: RenderSettings)
    ensures
        s.outcome() is Ok <==> {
            &&& s.width > 0 && s.height > 0
            &&& is_color(s.roof_color) && is_color(s.wall_color) && is_color(s.ground_color)
            &&& is_color(s.occluder_color) && is_color(s.background_color)
            &&& crate::shape_laws::is_point(s.light_direction)
            &&& s.direct_light.is_finite() && s.direct_light.value() >= 0
            &&& s.ambient_light.is_finite() && s.ambient_light.value() >= 0
            &&& crate::camera_laws::is_share(s.roof_roughness)
            &&& crate::camera_laws::is_share(s.wall_roughness)
            &&& crate::camera_laws::is_share(s.ground_roughness)
        },
        s.width == 0 || s.height == 0 ==> s.outcome() == Err::<(), crate::render_error::RenderError>(
            crate::render_error::RenderError::InvalidDimensions {
                width: s.width,
                height: s.height,
            },
        ),
{
    one_is_one();
    let (zero, one) = (Single::zero(), Single::one());
    lemma_order_at(s.roof_roughness, zero, one);
    lemma_order_at(s.wall_roughness, zero, one);
    lemma_order_at(s.ground_roughness, zero, one);
    lemma_order_at(s.direct_light, zero, one);
    lemma_order_at(s.ambient_light, zero, one);
}

proof fn lemma_order_at(x: Single, low: Single, high: Single)
    requires
        low.is_finite(),
        high.is_finite(),
    ensures
        x.is_finite() ==> {
            &&& x.less(low) <==> x.value() < low.value()
            &&& low.at_most(x) <==> low.value() <= x.value()
            &&& x.at_most(high) <==> x.value() <= high.value()
        },
{
    if x.is_finite() {
        order_is_value_order(x, low);
        order_is_value_order(low, x);
        order_is_value_order(x, high);
    }
}

/// A camera can be used exactly where its image has a size, its calibration is finite with
/// focal lengths above zero, its pose is valid and its clipping planes lie one behind the
/// other in front of it.
pub proof fn usable_cameras(camera: RenderCamera)
    ensures
        camera.is_valid() <==> {
            let k = camera.intrinsics;
            &&& k.width > 0 && k.height > 0
            &&& k.fx.is_finite() && k.fx.value() > 0
            &&& k.fy.is_finite() && k.fy.value() > 0
            &&& k.cx.is_finite() && k.cy.is_finite() && k.skew.is_finite()
            &&& camera.world_from_camera.is_valid()
            &&& camera.near.is_finite() && camera.near.value() > 0
            &&& camera.far.is_finite() && camera.near.value() < camera.far.value()
        },
{
    one_is_one();
    let zero = Single::zero();
    let k = camera.intrinsics;
    if k.fx.is_finite() {
        order_is_value_order(k.fx, zero);
    }
    if k.fy.is_finite() {
        order_is_value_order(k.fy, zero);
    }
    if camera.near.is_finite() {
        order_is_value_order(camera.near, zero);
        if camera.far.is_finite() {
            order_is_value_order(camera.far, camera.near);
        }
    }
}

/// The shadow view is at least five metres wide, looks along the light, and is upright unless
/// the light is nearly so.
pub proof fn shadow_views_look_along_the_light(
    low: [Single; 3],
    high: [Single; 3],
    light: [Single; 3],
)
    ensures
        light_frame_of(low, high, light).light == light,
        Single::ratio(5, 1).at_most(light_frame_of(low, high, light).radius),
        light_frame_of(low, high, light).up == [Single::zero(), Single::one(), Single::zero()]
            || light_frame_of(low, high, light).up == [
            Single::zero(),
            Single::zero(),
            Single::one(),
        ],
{
    whole_literals(5);
}

} // verus!
