//! What the shapes of a scene are: where their corners lie and which way they face.

use crate::geometry::Turn;
use crate::patch::Patch;
use crate::rounding::{
    bounded_results_are_finite, differences_round, exact_results_are_kept,
    negations_change_the_sign, neutral_operands, one_is_one, products_round, quotients_round,
    results_are_close, results_keep_order, rounds, size, small_literals, sums_round, whole_numbers,
};
use crate::shapes::{
    background_box_patches, beam_corner, beam_patches, box_face, box_tinted_pattern_patches,
    cross, cylinder_angle, cylinder_patches, cylinder_point, dot, frustum_sides_patches, moved,
    offset, panel_tinted_pattern_patches, placed, pyramid_patches, ring_angle, rotated, scaled,
    segment_angle, straight, RoundTurns,
};
use crate::single::{order_is_value_order, Single};
use crate::surface::{MaterialSlot, SurfacePattern};
use crate::whole::unit;
use vstd::prelude::*;

verus! {

/// Coordinates that are finite.
pub open spec fn is_point(p: [Single; 3]) -> bool {
    p[0].is_finite() && p[1].is_finite() && p[2].is_finite()
}

/// The exact value of a coordinate.
pub open spec fn at(p: [Single; 3], axis: int) -> int {
    p@[axis].value()
}

/// Which of the three axes a face of a box lies across.
pub open spec fn face_axis(i: u32) -> int {
    if i == 4 || i == 5 {
        1
    } else if i == 1 || i == 3 {
        0
    } else {
        2
    }
}

/// Whether a face of a box lies on the far side of its axis.
pub open spec fn face_is_far(i: u32) -> bool {
    i == 1 || i == 2 || i == 4
}

/// A box surrounds its middle: every corner is half of the size away from it along each axis,
/// the faces come in opposite pairs, all corners of one lie across its axis on its side, and
/// no two corners of a face agree in both of the other coordinates.
pub proof fn boxes_surround_their_middle(extent: [Single; 3], i: u32, k: int)
    requires
        is_point(extent),
        i < 6,
        0 <= k < 4,
    ensures
        ({
            let face = box_face(extent, i);
            let corner = face@[k];
            let next = face@[(k + 1) % 4];
            let axis = face_axis(i);
            &&& rounds(corner[0], at(extent, 0), 2) || rounds(
                corner[0].negated(),
                at(extent, 0),
                2,
            )
            &&& rounds(corner[1], at(extent, 1), 2) || rounds(
                corner[1].negated(),
                at(extent, 1),
                2,
            )
            &&& rounds(corner[2], at(extent, 2), 2) || rounds(
                corner[2].negated(),
                at(extent, 2),
                2,
            )
            &&& face_is_far(i) ==> rounds(corner@[axis], at(extent, axis), 2)
            &&& !face_is_far(i) ==> rounds(corner@[axis].negated(), at(extent, axis), 2)
            &&& axis != 0 ==> (corner[0] == next[0]) != (corner[0] == next[0].negated())
                || corner[0].value() == 0
        }),
{
    crate::framing_laws::lemma_half_rounds(extent[0]);
    crate::framing_laws::lemma_half_rounds(extent[1]);
    crate::framing_laws::lemma_half_rounds(extent[2]);
    let half = Single::ratio(5, 10);
    negations_change_the_sign(extent[0].times(half));
    negations_change_the_sign(extent[1].times(half));
    negations_change_the_sign(extent[2].times(half));
}

/// The exact vector product of the edges of a face at its first corner, along an axis.
pub open spec fn turned(face: [[Single; 3]; 4], axis: int) -> int {
    let (a, b, c) = (face@[0], face@[1], face@[2]);
    let (p, q) = ((axis + 1) % 3, (axis + 2) % 3);
    (at(b, p) - at(a, p)) * (at(c, q) - at(a, q)) - (at(b, q) - at(a, q)) * (at(c, p) - at(a, p))
}

/// The faces of a box look outwards: those on the far side of their axis along it, the others
/// against it.
pub proof fn boxes_face_outwards(extent: [Single; 3], i: u32)
    requires
        is_point(extent),
        at(extent, 0) >= 4,
        at(extent, 1) >= 4,
        at(extent, 2) >= 4,
        i < 6,
    ensures
        face_is_far(i) ==> turned(box_face(extent, i), face_axis(i)) > 0,
        !face_is_far(i) ==> turned(box_face(extent, i), face_axis(i)) < 0,
{
    lemma_half_positive(extent[0]);
    lemma_half_positive(extent[1]);
    lemma_half_positive(extent[2]);
    let half = Single::ratio(5, 10);
    let (x, y, z) = (extent[0].times(half), extent[1].times(half), extent[2].times(half));
    negations_change_the_sign(x);
    negations_change_the_sign(y);
    negations_change_the_sign(z);
    let (a, b, c) = (x.value(), y.value(), z.value());
    assert((2 * a) * (2 * b) > 0 && (2 * b) * (2 * c) > 0 && (2 * c) * (2 * a) > 0)
        by (nonlinear_arith)
        requires
            a > 0,
            b > 0,
            c > 0,
    ;
    assert((-2 * a) * (2 * b) == -((2 * a) * (2 * b))) by (nonlinear_arith);
    assert((-2 * b) * (2 * c) == -((2 * b) * (2 * c))) by (nonlinear_arith);
    assert((-2 * c) * (2 * a) == -((2 * c) * (2 * a))) by (nonlinear_arith);
    assert((2 * a) * (-2 * b) == -((2 * a) * (2 * b))) by (nonlinear_arith);
    assert((2 * b) * (-2 * c) == -((2 * b) * (2 * c))) by (nonlinear_arith);
    assert((2 * c) * (-2 * a) == -((2 * c) * (2 * a))) by (nonlinear_arith);
    assert((2 * b) * (2 * a) == (2 * a) * (2 * b)) by (nonlinear_arith);
    assert((2 * c) * (2 * b) == (2 * b) * (2 * c)) by (nonlinear_arith);
    assert((2 * a) * (2 * c) == (2 * c) * (2 * a)) by (nonlinear_arith);
    assert((2 * b) * (-2 * a) == -((2 * a) * (2 * b))) by (nonlinear_arith);
    assert((2 * c) * (-2 * b) == -((2 * b) * (2 * c))) by (nonlinear_arith);
    assert((2 * a) * (-2 * c) == -((2 * c) * (2 * a))) by (nonlinear_arith);
    assert((-2 * b) * (2 * a) == -((2 * a) * (2 * b))) by (nonlinear_arith);
    assert((-2 * c) * (2 * b) == -((2 * b) * (2 * c))) by (nonlinear_arith);
    assert((-2 * a) * (2 * c) == -((2 * c) * (2 * a))) by (nonlinear_arith);
    assert(forall|n: int| #![trigger 0 * n] 0 * n == 0) by (nonlinear_arith);
    assert(forall|n: int| #![trigger n * 0] n * 0 == 0) by (nonlinear_arith);
}

proof fn lemma_half_positive(x: Single)
    requires
        x.is_finite(),
        x.value() >= 4,
    ensures
        x.times(Single::ratio(5, 10)).is_finite(),
        x.times(Single::ratio(5, 10)).value() > 0,
{
    crate::framing_laws::lemma_half_rounds(x);
    let h = x.times(Single::ratio(5, 10));
    bounded_results_are_finite(h, x.value(), 2, x);
    results_are_close(h, x.value(), 2);
}

/// A point that is not turned keeps its coordinates, and a placed one is moved by its place.
pub proof fn unturned_points_stay(center: [Single; 3], point: [Single; 3], axis: int)
    requires
        is_point(center),
        is_point(point),
        0 <= axis < 3,
    ensures
        rotated(straight(), point)@[axis].equals(point@[axis]),
        rounds(placed(straight(), center, point)@[axis], at(point, axis) + at(center, axis), 1),
{
    one_is_one();
    small_literals();
    let (zero, one, two) = (Single::zero(), Single::one(), Single::ratio(2, 1));
    neutral_operands(one, zero);
    neutral_operands(zero, zero);
    neutral_operands(zero.times(zero), zero.times(zero));
    let none = zero.times(zero).plus(zero.times(zero)).plus(zero.times(zero));
    neutral_operands(zero.times(zero).plus(zero.times(zero)), zero.times(zero));
    neutral_operands(one, none);
    let keep = one.times(one).minus(none);
    assert(keep == one);
    lemma_times_nothing(point, zero);
    let axis_vector = [zero, zero, zero];
    let along = dot(point, axis_vector).times(two);
    neutral_operands(two, dot(point, axis_vector));
    neutral_operands(zero, along);
    let around = cross(axis_vector, point);
    let twice = one.times(two);
    neutral_operands(two, zero);
    lemma_kept(point[0], around[0], along);
    lemma_kept(point[1], around[1], along);
    lemma_kept(point[2], around[2], along);
    let turned = rotated(straight(), point);
    assert(axis == 0 || axis == 1 || axis == 2);
    order_is_value_order(turned@[axis], point@[axis]);
    sums_round(turned@[axis], center@[axis]);
}

proof fn lemma_times_nothing(point: [Single; 3], zero: Single)
    requires
        is_point(point),
        zero == Single::zero(),
    ensures
        ({
            let nothing = [zero, zero, zero];
            &&& dot(point, nothing).is_finite()
            &&& dot(point, nothing).value() == 0
            &&& is_point(cross(nothing, point))
            &&& at(cross(nothing, point), 0) == 0
            &&& at(cross(nothing, point), 1) == 0
            &&& at(cross(nothing, point), 2) == 0
        }),
{
    one_is_one();
    neutral_operands(point[0], zero);
    neutral_operands(point[1], zero);
    neutral_operands(point[2], zero);
    let (a, b, c) = (point[0].times(zero), point[1].times(zero), point[2].times(zero));
    neutral_operands(a, b);
    neutral_operands(a.plus(b), c);
    let (d, e, f) = (zero.times(point[0]), zero.times(point[1]), zero.times(point[2]));
    neutral_operands(f, b);
    neutral_operands(d, c);
    neutral_operands(e, a);
}

proof fn lemma_kept(x: Single, around: Single, along: Single)
    requires
        x.is_finite(),
        around.is_finite(),
        around.value() == 0,
        along.is_finite(),
        along.value() == 0,
    ensures
        ({
            let r = x.times(Single::one()).plus(Single::zero().times(along)).plus(
                around.times(Single::one().times(Single::ratio(2, 1))),
            );
            r.is_finite() && r.value() == x.value()
        }),
{
    one_is_one();
    small_literals();
    let two = Single::ratio(2, 1);
    neutral_operands(two, Single::zero());
    neutral_operands(x, Single::zero());
    neutral_operands(Single::zero(), along);
    neutral_operands(x, Single::zero().times(along));
    neutral_operands(two, around);
    neutral_operands(x.plus(Single::zero().times(along)), around.times(two));
}

/// A face of a box of one look, wherever it stands.
pub open spec fn looks_like(
    patch: Patch,
    look: MaterialSlot,
    tint: [Single; 4],
    treatment: SurfacePattern,
) -> bool {
    patch matches Patch::Quad { corners, material, appearance, pattern } && material == look
        && appearance == tint && pattern == treatment
}

/// A box has six faces of its one look, each of its own corners put in place. A neighbour's
/// walls carry its treatment and its two caps never windows, and a sign panel shows its
/// artwork on its two large faces and plain trim on the others.
pub proof fn boxes_have_six_faces(
    center: [Single; 3],
    extent: [Single; 3],
    half: Turn,
    material: MaterialSlot,
    appearance: [Single; 4],
    pattern: SurfacePattern,
    i: int,
    k: int,
)
    requires
        0 <= i < 6,
        0 <= k < 4,
    ensures
        ({
            let faces = box_tinted_pattern_patches(
                center,
                extent,
                half,
                material,
                appearance,
                pattern,
            );
            &&& faces.len() == 6
            &&& looks_like(faces[i], material, appearance, pattern)
            &&& (faces[i]->Quad_corners)@[k] == placed(
                half,
                center,
                box_face(extent, i as u32)@[k],
            )
        }),
        ({
            let faces = background_box_patches(center, extent, half, appearance, pattern);
            &&& faces.len() == 6
            &&& i < 4 ==> looks_like(faces[i], MaterialSlot::BackgroundWall, appearance, pattern)
            &&& (faces[i]->Quad_corners)@[k] == placed(
                half,
                center,
                box_face(extent, i as u32)@[k],
            )
        }),
        ({
            let faces = panel_tinted_pattern_patches(
                center,
                extent,
                half,
                material,
                appearance,
                pattern,
            );
            &&& faces.len() == 6
            &&& i < 2 ==> looks_like(faces[i], material, appearance, pattern)
            &&& i >= 2 ==> looks_like(
                faces[i],
                MaterialSlot::Trim,
                crate::shapes::untinted(),
                SurfacePattern::smooth(),
            )
            &&& i < 2 ==> (faces[i]->Quad_corners)@[k] == placed(
                half,
                center,
                box_face(extent, (2 * i) as u32)@[k],
            )
        }),
{
}

/// The wall of a cylinder is at its radius around its axis, and its eight sides go from its
/// base to its top and join each other.
pub proof fn cylinders_are_closed(
    base: [Single; 3],
    radius: Single,
    height: Single,
    turns: RoundTurns,
    material: MaterialSlot,
    k: int,
)
    requires
        0 <= k < 8,
        base[1].is_finite(),
        height.is_finite(),
    ensures
        ({
            let sides = cylinder_patches(base, radius, height, turns, material);
            let corners = sides[k]->Quad_corners;
            let next = sides[k + 1]->Quad_corners;
            &&& sides.len() == 8
            &&& looks_like(
                sides[k],
                material,
                crate::shapes::untinted(),
                SurfacePattern::inherit(),
            )
            &&& corners[0][1] == base[1] && corners[1][1] == base[1]
            &&& rounds(corners[2][1], at(base, 1) + height.value(), 1)
            &&& corners[3][1] == corners[2][1]
            &&& corners[0][0] == corners[3][0] && corners[0][2] == corners[3][2]
            &&& corners[1][0] == corners[2][0] && corners[1][2] == corners[2][2]
            &&& k < 7 ==> corners[0] == next[1] && corners[3] == next[2]
            &&& corners[1] == cylinder_point(base, radius, turns.cylinder@[k], base[1])
            &&& corners[0] == cylinder_point(base, radius, turns.cylinder@[k + 1], base[1])
        }),
{
    sums_round(base[1], height);
    let sides = cylinder_patches(base, radius, height, turns, material);
    assert(k == 0 || k == 1 || k == 2 || k == 3 || k == 4 || k == 5 || k == 6 || k == 7);
}

/// A point of a cylinder's wall is the radius away from its axis in its direction.
pub proof fn cylinder_points_lie_around_the_axis(
    base: [Single; 3],
    radius: Single,
    turn: Turn,
    y: Single,
)
    requires
        is_point(base),
        radius.is_finite(),
        turn.cosine.is_finite(),
        turn.sine.is_finite(),
        radius.times(turn.cosine).is_finite(),
        radius.times(turn.sine).is_finite(),
    ensures
        cylinder_point(base, radius, turn, y)[1] == y,
        exists|a: Single| #[trigger]
            rounds(a, radius.value() * turn.cosine.value(), unit()) && rounds(
                cylinder_point(base, radius, turn, y)[0],
                at(base, 0) + a.value(),
                1,
            ),
        exists|a: Single| #[trigger]
            rounds(a, radius.value() * turn.sine.value(), unit()) && rounds(
                cylinder_point(base, radius, turn, y)[2],
                at(base, 2) + a.value(),
                1,
            ),
{
    let (a, b) = (radius.times(turn.cosine), radius.times(turn.sine));
    products_round(radius, turn.cosine);
    products_round(radius, turn.sine);
    sums_round(base[0], a);
    sums_round(base[2], b);
    assert(rounds(a, radius.value() * turn.cosine.value(), unit()));
    assert(rounds(b, radius.value() * turn.sine.value(), unit()));
}

/// Round shapes begin at no angle and close: the last side of a cylinder and the last segment
/// of an ellipsoid end at a full turn, the last ring at half of one.
pub proof fn round_shapes_close()
    ensures
        cylinder_angle(0).value() == 0,
        cylinder_angle(8).value() == crate::sample_site::tau().value(),
        segment_angle(0).value() == 0,
        segment_angle(12).value() == crate::sample_site::tau().value(),
        ring_angle(0).value() == 0,
        2 * ring_angle(7).value() == crate::sample_site::tau().value(),
{
    one_is_one();
    let u = unit();
    let (zero, one) = (Single::zero(), Single::one());
    let tau = crate::sample_site::tau();
    crate::single::lemma_magnitude_increases(0, tau.code());
    whole_numbers(0);
    whole_numbers(7);
    whole_numbers(8);
    whole_numbers(12);
    assert(0 * u == 0);
    let none = Single::from_u32(0);
    lemma_all(7);
    lemma_all(12);
    neutral_operands(tau, none);
    let eight = Single::from_u32(8);
    quotients_round(tau.times(none), eight);
    assert(0 * (8 * u) == 0);
    exact_results_are_kept(cylinder_angle(0), 0, 8 * u, zero);
    neutral_operands(tau, zero);
    quotients_round(none, Single::from_u32(7));
    quotients_round(none, Single::from_u32(12));
    assert(0 * (7 * u) == 0 && 0 * (12 * u) == 0);
    exact_results_are_kept(crate::shapes::ring_share(0), 0, 7 * u, zero);
    exact_results_are_kept(crate::shapes::segment_share(0), 0, 12 * u, zero);
    neutral_operands(tau, crate::shapes::segment_share(0));
    let pi = crate::assets::pi();
    crate::single::lemma_magnitude_increases(0, pi.code());
    neutral_operands(pi, crate::shapes::ring_share(0));
    neutral_operands(pi, zero);
    vstd::arithmetic::power2::lemma2_to64();
    crate::single::lemma_magnitude(127, 0xc9_0fdb);
    crate::single::lemma_magnitude(128, 0xc9_0fdb);
    crate::single::lemma_magnitude(131, 0xc9_0fdb);
    vstd::arithmetic::power2::lemma_pow2_adds(1, 127);
    vstd::arithmetic::power2::lemma_pow2_adds(3, 128);
    assert(pi.code() == 127 * 0x80_0000 + 0xc9_0fdb);
    assert(tau.code() == 128 * 0x80_0000 + 0xc9_0fdb);
    let large = Single { bits: 0x4249_0fdb };
    assert(large.code() == 131 * 0x80_0000 + 0xc9_0fdb);
    let t = tau.value();
    assert(large.value() == 8 * t);
    products_round(tau, eight);
    assert(t * (8 * u) == (8 * t) * u) by (nonlinear_arith);
    exact_results_are_kept(tau.times(eight), t * (8 * u), u, large);
    quotients_round(large, eight);
    assert((8 * t) * u == t * (8 * u)) by (nonlinear_arith);
    exact_results_are_kept(cylinder_angle(8), (8 * t) * u, 8 * u, tau);
}

proof fn lemma_all(n: u32)
    requires
        0 < n < 0x100_0000,
    ensures
        Single::from_u32(n).over(Single::from_u32(n)) == Single::one(),
{
    one_is_one();
    whole_numbers(n);
    let x = Single::from_u32(n);
    let (m, u) = (n as int, unit());
    assert(m * u > 0) by (nonlinear_arith)
        requires
            m > 0,
            u > 0,
    ;
    quotients_round(x, x);
    assert(x.value() * u == u * x.value()) by (nonlinear_arith);
    exact_results_are_kept(x.over(x), x.value() * u, x.value(), Single::one());
}

/// Vectors add, subtract and stretch coordinate by coordinate.
pub proof fn vectors_work_by_coordinates(a: [Single; 3], b: [Single; 3], f: Single, i: int)
    requires
        is_point(a),
        is_point(b),
        f.is_finite(),
        0 <= i < 3,
    ensures
        rounds(moved(a, b)@[i], at(a, i) + at(b, i), 1),
        rounds(offset(a, b)@[i], at(a, i) - at(b, i), 1),
        rounds(scaled(a, f)@[i], at(a, i) * f.value(), unit()),
{
    assert(i == 0 || i == 1 || i == 2);
    sums_round(a@[i], b@[i]);
    differences_round(a@[i], b@[i]);
    products_round(a@[i], f);
}

/// The product of two vectors is right-handed: each coordinate has the sign of the exact one
/// wherever it has a sign.
pub proof fn products_are_right_handed(a: [Single; 3], b: [Single; 3], i: int)
    requires
        is_point(a),
        is_point(b),
        0 <= i < 3,
        a@[(i + 1) % 3].times(b@[(i + 2) % 3]).is_finite(),
        b@[(i + 1) % 3].times(a@[(i + 2) % 3]).is_finite(),
    ensures
        ({
            let (p, q) = ((i + 1) % 3, (i + 2) % 3);
            let exact = at(a, p) * at(b, q) - at(b, p) * at(a, q);
            let made = cross(a, b)@[i];
            &&& exact >= 0 ==> Single::zero().at_most(made)
            &&& exact <= 0 ==> made.at_most(Single::zero())
        }),
{
    one_is_one();
    let (p, q) = ((i + 1) % 3, (i + 2) % 3);
    assert(i == 0 || i == 1 || i == 2);
    let (x, y) = (a@[p].times(b@[q]), b@[p].times(a@[q]));
    products_round(a@[p], b@[q]);
    products_round(b@[p], a@[q]);
    differences_round(x, y);
    let (m, n) = (at(a, p) * at(b, q), at(b, p) * at(a, q));
    let zero = Single::zero();
    neutral_operands(zero, zero);
    sums_round(zero, zero);
    order_is_value_order(zero, zero.plus(zero));
    assert(rounds(zero, 0, 1)) by {
        crate::whole::lemma_code_is_nearest(0);
        assert(crate::single::magnitude(0) == 0);
    }
    if m >= n {
        results_keep_order(y, x, n, m, unit());
        order_is_value_order(y, x);
        results_keep_order(zero, x.minus(y), 0, x.value() - y.value(), 1);
    }
    if m <= n {
        results_keep_order(x, y, m, n, unit());
        order_is_value_order(x, y);
        results_keep_order(x.minus(y), zero, x.value() - y.value(), 0, 1);
    }
}

/// The slopes of a pyramid are four roof triangles that meet at one top over the middle; their
/// lower edges go around the eave once.
pub proof fn pyramids_meet_at_their_top(x: Single, z: Single, y: Single, top: Single, i: int)
    requires
        0 <= i < 4,
    ensures
        ({
            let slopes = pyramid_patches(x, z, y, top);
            let c = slopes[i]->Triangle_corners;
            &&& slopes.len() == 4
            &&& slopes[i] is Triangle
            &&& slopes[i]->Triangle_material == MaterialSlot::Roof
            &&& c[2] == [Single::zero(), top, Single::zero()]
            &&& c[0][1] == y && c[1][1] == y
            &&& c[0][0] == x || c[0][0] == x.negated()
            &&& c[0][2] == z || c[0][2] == z.negated()
            &&& i == 0 ==> c[0][2] == z.negated() && c[1][2] == z.negated() && c[0][0]
                == x.negated() && c[1][0] == x
            &&& i == 1 ==> c[0][2] == z && c[1][2] == z && c[0][0] == x && c[1][0] == x.negated()
            &&& i == 2 ==> c[0][0] == x.negated() && c[1][0] == x.negated() && c[0][2] == z
                && c[1][2] == z.negated()
            &&& i == 3 ==> c[0][0] == x && c[1][0] == x && c[0][2] == z.negated() && c[1][2] == z
        }),
{
    assert(i == 0 || i == 1 || i == 2 || i == 3);
}

/// The slopes of a roof that is cut off go from the lower rectangle to the upper one, each on
/// its side.
pub proof fn slopes_join_both_rectangles(
    lower_x: Single,
    lower_z: Single,
    lower_y: Single,
    upper_x: Single,
    upper_z: Single,
    upper_y: Single,
    i: int,
)
    requires
        0 <= i < 4,
    ensures
        ({
            let slopes = frustum_sides_patches(
                lower_x,
                lower_z,
                lower_y,
                upper_x,
                upper_z,
                upper_y,
            );
            let c = slopes[i]->Quad_corners;
            &&& slopes.len() == 4
            &&& looks_like(
                slopes[i],
                MaterialSlot::Roof,
                crate::shapes::untinted(),
                SurfacePattern::inherit(),
            )
            &&& c[0][1] == lower_y && c[1][1] == lower_y
            &&& c[2][1] == upper_y && c[3][1] == upper_y
            &&& i == 0 ==> c[0][2] == lower_z.negated() && c[1][2] == lower_z.negated() && c[2][2]
                == upper_z.negated() && c[3][2] == upper_z.negated() && c[1][0] == lower_x
                && c[2][0] == upper_x && c[0][0] == lower_x.negated() && c[3][0]
                == upper_x.negated()
            &&& i == 1 ==> c[0][2] == lower_z && c[1][2] == lower_z && c[2][2] == upper_z
                && c[3][2] == upper_z && c[0][0] == lower_x && c[3][0] == upper_x && c[1][0]
                == lower_x.negated() && c[2][0] == upper_x.negated()
            &&& i == 2 ==> c[0][0] == lower_x.negated() && c[1][0] == lower_x.negated() && c[2][0]
                == upper_x.negated() && c[3][0] == upper_x.negated() && c[0][2] == lower_z
                && c[3][2] == upper_z && c[1][2] == lower_z.negated() && c[2][2]
                == upper_z.negated()
            &&& i == 3 ==> c[0][0] == lower_x && c[1][0] == lower_x && c[2][0] == upper_x
                && c[3][0] == upper_x && c[1][2] == lower_z && c[2][2] == upper_z && c[0][2]
                == lower_z.negated() && c[3][2] == upper_z.negated()
        }),
{
    assert(i == 0 || i == 1 || i == 2 || i == 3);
}

/// A beam has four long sides between the corners of its two ends, and each side goes on
/// where the one before ended. One without a direction has none.
pub proof fn beams_are_closed(
    start: [Single; 3],
    end: [Single; 3],
    radius: Single,
    material: MaterialSlot,
    i: int,
)
    requires
        0 <= i < 4,
    ensures
        ({
            let direction = crate::shapes::unit_or_zero(offset(end, start));
            let sides = beam_patches(start, end, radius, material);
            let c = sides[i]->Quad_corners;
            let next = sides[(i + 1) % 4]->Quad_corners;
            &&& crate::shapes::is_zero(direction) ==> sides.len() == 0
            &&& !crate::shapes::is_zero(direction) ==> {
                &&& sides.len() == 4
                &&& looks_like(
                    sides[i],
                    material,
                    crate::shapes::untinted(),
                    SurfacePattern::inherit(),
                )
                &&& c[2] == next[1] && c[3] == next[0]
            }
        }),
{
    assert(i == 0 || i == 1 || i == 2 || i == 3);
}

/// A number moved to one side or to the other.
pub open spec fn aside(place: int, by: int, forth: bool) -> int {
    if forth {
        place + by
    } else {
        place - by
    }
}

/// The corners of a beam's end lie to both sides of it and above and below.
pub proof fn beam_corners_surround_their_end(
    end: [Single; 3],
    side: [Single; 3],
    up: [Single; 3],
    right: bool,
    high: bool,
    i: int,
)
    requires
        is_point(end),
        is_point(side),
        is_point(up),
        0 <= i < 3,
        moved(end, side)@[i].is_finite(),
        offset(end, side)@[i].is_finite(),
    ensures
        exists|across: Single|
            {
                &&& #[trigger] rounds(across, aside(at(end, i), at(side, i), right), 1)
                &&& rounds(
                    beam_corner(end, side, up, right, high)@[i],
                    aside(across.value(), at(up, i), high),
                    1,
                )
            },
{
    assert(i == 0 || i == 1 || i == 2);
    sums_round(end@[i], side@[i]);
    differences_round(end@[i], side@[i]);
    let across = if right {
        moved(end, side)@[i]
    } else {
        offset(end, side)@[i]
    };
    sums_round(across, up@[i]);
    differences_round(across, up@[i]);
    assert(rounds(across, aside(at(end, i), at(side, i), right), 1));
}

} // verus!
