//! Surface patches of simple shapes.

use crate::assets::pi;
use crate::geometry::Turn;
use crate::patch::{append_patch, Patch};
use crate::sample_site::tau;
use crate::single::Single;
use crate::surface::{MaterialSlot, SurfacePattern};
use vstd::prelude::*;

verus! {

broadcast use crate::patch::group_concat;

/// No tint and no control.
pub open spec fn spec_untinted() -> [Single; 4] {
    [Single::zero(), Single::zero(), Single::zero(), Single::zero()]
}

/// No tint and no control.
#[verifier::when_used_as_spec(spec_untinted)]
pub fn untinted() -> (r: [Single; 4])
    ensures
        r == spec_untinted(),
{
    [Single::zero(), Single::zero(), Single::zero(), Single::zero()]
}

/// The turn by nothing.
pub open spec fn spec_straight() -> Turn {
    Turn { cosine: Single::one(), sine: Single::zero() }
}

/// The turn by nothing.
#[verifier::when_used_as_spec(spec_straight)]
pub fn straight() -> (r: Turn)
    ensures
        r == spec_straight(),
{
    Turn { cosine: Single::one(), sine: Single::zero() }
}

/// Product of two vectors.
pub open spec fn spec_dot(a: [Single; 3], b: [Single; 3]) -> Single {
    a[0].times(b[0]).plus(a[1].times(b[1])).plus(a[2].times(b[2]))
}

/// Product of two vectors.
#[verifier::when_used_as_spec(spec_dot)]
pub fn dot(a: [Single; 3], b: [Single; 3]) -> (r: Single)
    ensures
        r == spec_dot(a, b),
{
    a[0].times(b[0]).plus(a[1].times(b[1])).plus(a[2].times(b[2]))
}

/// Vector that two vectors span.
pub open spec fn spec_cross(a: [Single; 3], b: [Single; 3]) -> [Single; 3] {
    [
        a[1].times(b[2]).minus(b[1].times(a[2])),
        a[2].times(b[0]).minus(b[2].times(a[0])),
        a[0].times(b[1]).minus(b[0].times(a[1])),
    ]
}

/// Vector that two vectors span.
#[verifier::when_used_as_spec(spec_cross)]
pub fn cross(a: [Single; 3], b: [Single; 3]) -> (r: [Single; 3])
    ensures
        r == spec_cross(a, b),
{
    [
        a[1].times(b[2]).minus(b[1].times(a[2])),
        a[2].times(b[0]).minus(b[2].times(a[0])),
        a[0].times(b[1]).minus(b[0].times(a[1])),
    ]
}

/// Vector from one point to another.
pub open spec fn spec_offset(to: [Single; 3], from: [Single; 3]) -> [Single; 3] {
    [to[0].minus(from[0]), to[1].minus(from[1]), to[2].minus(from[2])]
}

/// Vector from one point to another.
#[verifier::when_used_as_spec(spec_offset)]
pub fn offset(to: [Single; 3], from: [Single; 3]) -> (r: [Single; 3])
    ensures
        r == spec_offset(to, from),
{
    [to[0].minus(from[0]), to[1].minus(from[1]), to[2].minus(from[2])]
}

/// A point moved by a vector.
pub open spec fn spec_moved(point: [Single; 3], by: [Single; 3]) -> [Single; 3] {
    [point[0].plus(by[0]), point[1].plus(by[1]), point[2].plus(by[2])]
}

/// A point moved by a vector.
#[verifier::when_used_as_spec(spec_moved)]
pub fn moved(point: [Single; 3], by: [Single; 3]) -> (r: [Single; 3])
    ensures
        r == spec_moved(point, by),
{
    [point[0].plus(by[0]), point[1].plus(by[1]), point[2].plus(by[2])]
}

/// A vector lengthened by a factor.
pub open spec fn spec_scaled(v: [Single; 3], factor: Single) -> [Single; 3] {
    [v[0].times(factor), v[1].times(factor), v[2].times(factor)]
}

/// A vector lengthened by a factor.
#[verifier::when_used_as_spec(spec_scaled)]
pub fn scaled(v: [Single; 3], factor: Single) -> (r: [Single; 3])
    ensures
        r == spec_scaled(v, factor),
{
    [v[0].times(factor), v[1].times(factor), v[2].times(factor)]
}

/// Reciprocal of the length of a vector.
pub open spec fn spec_length_recip(v: [Single; 3]) -> Single {
    Single::one().over(dot(v, v).root())
}

/// Reciprocal of the length of a vector.
#[verifier::when_used_as_spec(spec_length_recip)]
pub fn length_recip(v: [Single; 3]) -> (r: Single)
    ensures
        r == spec_length_recip(v),
{
    Single::one().over(dot(v, v).root())
}

/// A vector brought to unit length.
pub open spec fn spec_unit(v: [Single; 3]) -> [Single; 3] {
    scaled(v, length_recip(v))
}

/// A vector brought to unit length.
#[verifier::when_used_as_spec(spec_unit)]
pub fn unit(v: [Single; 3]) -> (r: [Single; 3])
    ensures
        r == spec_unit(v),
{
    scaled(v, length_recip(v))
}

/// A vector brought to unit length, or nothing where it has no direction.
pub open spec fn spec_unit_or_zero(v: [Single; 3]) -> [Single; 3] {
    let factor = length_recip(v);
    if factor.is_finite() && Single::zero().less(factor) {
        scaled(v, factor)
    } else {
        [Single::zero(), Single::zero(), Single::zero()]
    }
}

/// A vector brought to unit length, or nothing where it has no direction.
#[verifier::when_used_as_spec(spec_unit_or_zero)]
pub fn unit_or_zero(v: [Single; 3]) -> (r: [Single; 3])
    ensures
        r == spec_unit_or_zero(v),
{
    let factor = length_recip(v);
    if factor.is_finite() && Single::zero().less(factor) {
        scaled(v, factor)
    } else {
        [Single::zero(), Single::zero(), Single::zero()]
    }
}

/// A point turned around world up. `half` is the turn by half the angle.
pub open spec fn spec_rotated(half: Turn, point: [Single; 3]) -> [Single; 3] {
    let w = half.cosine;
    let axis = [Single::zero(), half.sine, Single::zero()];
    let keep = w.times(w).minus(dot(axis, axis));
    let along = dot(point, axis).times(Single::ratio(2, 1));
    let around = cross(axis, point);
    let twice = w.times(Single::ratio(2, 1));
    [
        point[0].times(keep).plus(axis[0].times(along)).plus(around[0].times(twice)),
        point[1].times(keep).plus(axis[1].times(along)).plus(around[1].times(twice)),
        point[2].times(keep).plus(axis[2].times(along)).plus(around[2].times(twice)),
    ]
}

/// A point turned around world up. `half` is the turn by half the angle.
#[verifier::when_used_as_spec(spec_rotated)]
pub fn rotated(half: Turn, point: [Single; 3]) -> (r: [Single; 3])
    ensures
        r == spec_rotated(half, point),
{
    let w = half.cosine;
    let axis = [Single::zero(), half.sine, Single::zero()];
    let keep = w.times(w).minus(dot(axis, axis));
    let along = dot(point, axis).times(Single::ratio(2, 1));
    let around = cross(axis, point);
    let twice = w.times(Single::ratio(2, 1));
    [
        point[0].times(keep).plus(axis[0].times(along)).plus(around[0].times(twice)),
        point[1].times(keep).plus(axis[1].times(along)).plus(around[1].times(twice)),
        point[2].times(keep).plus(axis[2].times(along)).plus(around[2].times(twice)),
    ]
}

/// A local point put in its place in the world.
pub open spec fn spec_placed(half: Turn, center: [Single; 3], point: [Single; 3]) -> [Single; 3] {
    moved(rotated(half, point), center)
}

/// A local point put in its place in the world.
#[verifier::when_used_as_spec(spec_placed)]
pub fn placed(half: Turn, center: [Single; 3], point: [Single; 3]) -> (r: [Single; 3])
    ensures
        r == spec_placed(half, center, point),
{
    moved(rotated(half, point), center)
}

/// A local face put in its place in the world.
pub open spec fn spec_placed_face(
    half: Turn,
    center: [Single; 3],
    face: [[Single; 3]; 4],
) -> [[Single; 3]; 4] {
    [
        placed(half, center, face[0]),
        placed(half, center, face[1]),
        placed(half, center, face[2]),
        placed(half, center, face[3]),
    ]
}

/// A local face put in its place in the world.
#[verifier::when_used_as_spec(spec_placed_face)]
pub fn placed_face(
    half: Turn,
    center: [Single; 3],
    face: [[Single; 3]; 4],
) -> (r: [[Single; 3]; 4])
    ensures
        r == spec_placed_face(half, center, face),
{
    [
        placed(half, center, face[0]),
        placed(half, center, face[1]),
        placed(half, center, face[2]),
        placed(half, center, face[3]),
    ]
}

/// A point of the ground plane turned around world up.
pub open spec fn spec_rotate_ground_offset(x: Single, z: Single, turn: Turn) -> [Single; 2] {
    let cos = turn.cosine;
    let sin = turn.sine;
    [cos.times(x).plus(sin.times(z)), sin.negated().times(x).plus(cos.times(z))]
}

/// A point of the ground plane turned around world up.
#[verifier::when_used_as_spec(spec_rotate_ground_offset)]
pub fn rotate_ground_offset(x: Single, z: Single, turn: Turn) -> (r: [Single; 2])
    ensures
        r == spec_rotate_ground_offset(x, z, turn),
{
    let cos = turn.cosine;
    let sin = turn.sine;
    [cos.times(x).plus(sin.times(z)), sin.negated().times(x).plus(cos.times(z))]
}

/// Sides of a cylinder.
pub const CYLINDER_SEGMENTS: u32 = 8;

/// Rings of an ellipsoid below its top.
pub const ELLIPSOID_RINGS: u32 = 7;

/// Segments of an ellipsoid around its axis.
pub const ELLIPSOID_SEGMENTS: u32 = 12;

/// Angle at which a side of a cylinder begins.
pub open spec fn spec_cylinder_angle(k: u32) -> Single {
    tau().times(Single::from_u32(k)).over(Single::from_u32(CYLINDER_SEGMENTS))
}

/// Angle at which a side of a cylinder begins.
#[verifier::when_used_as_spec(spec_cylinder_angle)]
pub fn cylinder_angle(k: u32) -> (r: Single)
    ensures
        r == spec_cylinder_angle(k),
{
    tau().times(Single::from_u32(k)).over(Single::from_u32(CYLINDER_SEGMENTS))
}

/// Share of an ellipsoid's rings above a ring.
pub open spec fn spec_ring_share(ring: u32) -> Single {
    Single::from_u32(ring).over(Single::from_u32(ELLIPSOID_RINGS))
}

/// Share of an ellipsoid's rings above a ring.
#[verifier::when_used_as_spec(spec_ring_share)]
pub fn ring_share(ring: u32) -> (r: Single)
    ensures
        r == spec_ring_share(ring),
{
    Single::from_u32(ring).over(Single::from_u32(ELLIPSOID_RINGS))
}

/// Share of an ellipsoid's segments before a segment.
pub open spec fn spec_segment_share(segment: u32) -> Single {
    Single::from_u32(segment).over(Single::from_u32(ELLIPSOID_SEGMENTS))
}

/// Share of an ellipsoid's segments before a segment.
#[verifier::when_used_as_spec(spec_segment_share)]
pub fn segment_share(segment: u32) -> (r: Single)
    ensures
        r == spec_segment_share(segment),
{
    Single::from_u32(segment).over(Single::from_u32(ELLIPSOID_SEGMENTS))
}

/// Angle from the top of an ellipsoid to a ring.
pub open spec fn spec_ring_angle(ring: u32) -> Single {
    pi().times(ring_share(ring))
}

/// Angle from the top of an ellipsoid to a ring.
#[verifier::when_used_as_spec(spec_ring_angle)]
pub fn ring_angle(ring: u32) -> (r: Single)
    ensures
        r == spec_ring_angle(ring),
{
    pi().times(ring_share(ring))
}

/// Angle around the axis of an ellipsoid to a segment.
pub open spec fn spec_segment_angle(segment: u32) -> Single {
    tau().times(segment_share(segment))
}

/// Angle around the axis of an ellipsoid to a segment.
#[verifier::when_used_as_spec(spec_segment_angle)]
pub fn segment_angle(segment: u32) -> (r: Single)
    ensures
        r == spec_segment_angle(segment),
{
    tau().times(segment_share(segment))
}

/// Turns by the fixed angles of round shapes.
#[derive(Clone, Copy, Debug, PartialEq)]
pub struct RoundTurns {
    /// Turns by [`cylinder_angle`].
    pub cylinder: [Turn; 9],
    /// Turns by [`ring_angle`].
    pub rings: [Turn; 8],
    /// Turns by [`segment_angle`].
    pub segments: [Turn; 13],
}

/// Turn at which a side of a cylinder begins.
pub open spec fn spec_cylinder_turn(turns: RoundTurns, k: u32) -> Turn {
    turns.cylinder@[k as int]
}

/// Turn at which a side of a cylinder begins.
#[verifier::when_used_as_spec(spec_cylinder_turn)]
pub fn cylinder_turn(turns: RoundTurns, k: u32) -> (r: Turn)
    requires
        k < 9,
    ensures
        r == spec_cylinder_turn(turns, k),
{
    turns.cylinder[k as usize]
}

/// Turn from the top of an ellipsoid to a ring.
pub open spec fn spec_rings_turn(turns: RoundTurns, k: u32) -> Turn {
    turns.rings@[k as int]
}

/// Turn from the top of an ellipsoid to a ring.
#[verifier::when_used_as_spec(spec_rings_turn)]
pub fn rings_turn(turns: RoundTurns, k: u32) -> (r: Turn)
    requires
        k < 8,
    ensures
        r == spec_rings_turn(turns, k),
{
    turns.rings[k as usize]
}

/// Turn around the axis of an ellipsoid to a segment.
pub open spec fn spec_segments_turn(turns: RoundTurns, k: u32) -> Turn {
    turns.segments@[k as int]
}

/// Turn around the axis of an ellipsoid to a segment.
#[verifier::when_used_as_spec(spec_segments_turn)]
pub fn segments_turn(turns: RoundTurns, k: u32) -> (r: Turn)
    requires
        k < 13,
    ensures
        r == spec_segments_turn(turns, k),
{
    turns.segments[k as usize]
}

/// A face of a box around its centre: the four sides, the top and the bottom.
pub open spec fn spec_box_face(size: [Single; 3], i: u32) -> [[Single; 3]; 4] {
    let x = size[0].times(Single::ratio(5, 10));
    let y = size[1].times(Single::ratio(5, 10));
    let z = size[2].times(Single::ratio(5, 10));
    if i == 0 {
        [
            [x, y.negated(), z.negated()],
            [x.negated(), y.negated(), z.negated()],
            [x.negated(), y, z.negated()],
            [x, y, z.negated()],
        ]
    } else if i == 1 {
        [[x, y.negated(), z], [x, y.negated(), z.negated()], [x, y, z.negated()], [x, y, z]]
    } else if i == 2 {
        [[x.negated(), y.negated(), z], [x, y.negated(), z], [x, y, z], [x.negated(), y, z]]
    } else if i == 3 {
        [
            [x.negated(), y.negated(), z.negated()],
            [x.negated(), y.negated(), z],
            [x.negated(), y, z],
            [x.negated(), y, z.negated()],
        ]
    } else if i == 4 {
        [[x.negated(), y, z.negated()], [x.negated(), y, z], [x, y, z], [x, y, z.negated()]]
    } else {
        [
            [x.negated(), y.negated(), z],
            [x.negated(), y.negated(), z.negated()],
            [x, y.negated(), z.negated()],
            [x, y.negated(), z],
        ]
    }
}

/// A face of a box around its centre: the four sides, the top and the bottom.
#[verifier::when_used_as_spec(spec_box_face)]
pub fn box_face(size: [Single; 3], i: u32) -> (r: [[Single; 3]; 4])
    ensures
        r == spec_box_face(size, i),
{
    let x = size[0].times(Single::ratio(5, 10));
    let y = size[1].times(Single::ratio(5, 10));
    let z = size[2].times(Single::ratio(5, 10));
    if i == 0 {
        [
            [x, y.negated(), z.negated()],
            [x.negated(), y.negated(), z.negated()],
            [x.negated(), y, z.negated()],
            [x, y, z.negated()],
        ]
    } else if i == 1 {
        [[x, y.negated(), z], [x, y.negated(), z.negated()], [x, y, z.negated()], [x, y, z]]
    } else if i == 2 {
        [[x.negated(), y.negated(), z], [x, y.negated(), z], [x, y, z], [x.negated(), y, z]]
    } else if i == 3 {
        [
            [x.negated(), y.negated(), z.negated()],
            [x.negated(), y.negated(), z],
            [x.negated(), y, z],
            [x.negated(), y, z.negated()],
        ]
    } else if i == 4 {
        [[x.negated(), y, z.negated()], [x.negated(), y, z], [x, y, z], [x, y, z.negated()]]
    } else {
        [
            [x.negated(), y.negated(), z],
            [x.negated(), y.negated(), z.negated()],
            [x, y.negated(), z.negated()],
            [x, y.negated(), z],
        ]
    }
}

/// A face of a box in the world.
pub open spec fn spec_box_tinted_pattern_patch(
    center: [Single; 3],
    size: [Single; 3],
    half: Turn,
    material: MaterialSlot,
    appearance: [Single; 4],
    pattern: SurfacePattern,
    i: u32,
) -> Patch {
    Patch::Quad {
        corners: placed_face(half, center, box_face(size, i)),
        material,
        appearance,
        pattern,
    }
}

/// A face of a box in the world.
#[verifier::when_used_as_spec(spec_box_tinted_pattern_patch)]
pub fn box_tinted_pattern_patch(
    center: [Single; 3],
    size: [Single; 3],
    half: Turn,
    material: MaterialSlot,
    appearance: [Single; 4],
    pattern: SurfacePattern,
    i: u32,
) -> (r: Patch)
    ensures
        r == spec_box_tinted_pattern_patch(center, size, half, material, appearance, pattern, i),
{
    Patch::Quad {
        corners: placed_face(half, center, box_face(size, i)),
        material,
        appearance,
        pattern,
    }
}

/// The six faces of a box.
pub open spec fn box_tinted_pattern_patches(
    center: [Single; 3],
    size: [Single; 3],
    half: Turn,
    material: MaterialSlot,
    appearance: [Single; 4],
    pattern: SurfacePattern,
) -> Seq<Patch> {
    Seq::new(
        6,
        |i: int| box_tinted_pattern_patch(
            center,
            size,
            half,
            material,
            appearance,
            pattern,
            i as u32,
        ),
    )
}

/// Adds the six faces of a box.
pub fn append_box_tinted_pattern(
    out: &mut Vec<Patch>,
    center: [Single; 3],
    size: [Single; 3],
    half: Turn,
    material: MaterialSlot,
    appearance: [Single; 4],
    pattern: SurfacePattern,
)
    ensures
        final(out)@ == old(out)@ + box_tinted_pattern_patches(
            center,
            size,
            half,
            material,
            appearance,
            pattern,
        ),
{
    let ghost begun = out@;
    let mut i: u32 = 0;
    while i < 6
        invariant
            i <= 6,
            out@.len() == begun.len() + i,
            forall|j: int| 0 <= j < begun.len() ==> #[trigger] out@[j] == begun[j],
            forall|j: int|
                begun.len() <= j < out@.len() ==> #[trigger] out@[j] == box_tinted_pattern_patch(
                    center, size, half, material, appearance, pattern,
                    (j - begun.len()) as u32,
                ),
        decreases 6 - i,
    {
        out.push(box_tinted_pattern_patch(center, size, half, material, appearance, pattern, i));
        i = i + 1;
    }
    assert(
        out@ =~= begun + box_tinted_pattern_patches(
            center,
            size,
            half,
            material,
            appearance,
            pattern,
        )
    );
}

/// The six faces of a tinted box that inherits its treatment.
pub open spec fn box_tinted_patches(
    center: [Single; 3],
    size: [Single; 3],
    half: Turn,
    material: MaterialSlot,
    appearance: [Single; 4],
) -> Seq<Patch> {
    box_tinted_pattern_patches(center, size, half, material, appearance, SurfacePattern::inherit())
}

/// Adds the six faces of a tinted box that inherits its treatment.
pub fn append_box_tinted(
    out: &mut Vec<Patch>,
    center: [Single; 3],
    size: [Single; 3],
    half: Turn,
    material: MaterialSlot,
    appearance: [Single; 4],
)
    ensures
        final(out)@ == old(out)@ + box_tinted_patches(center, size, half, material, appearance),
{
    append_box_tinted_pattern(
        out,
        center,
        size,
        half,
        material,
        appearance,
        SurfacePattern::inherit(),
    );
}

/// The six faces of a plain box.
pub open spec fn box_patches(
    center: [Single; 3],
    size: [Single; 3],
    half: Turn,
    material: MaterialSlot,
) -> Seq<Patch> {
    box_tinted_patches(center, size, half, material, untinted())
}

/// Adds the six faces of a plain box.
pub fn append_box(
    out: &mut Vec<Patch>,
    center: [Single; 3],
    size: [Single; 3],
    half: Turn,
    material: MaterialSlot,
)
    ensures
        final(out)@ == old(out)@ + box_patches(center, size, half, material),
{
    append_box_tinted(out, center, size, half, material, untinted());
}

/// The treatment of the caps of a wall with a treatment: no windows.
pub open spec fn spec_background_cap_pattern(pattern: SurfacePattern) -> SurfacePattern {
    if pattern == SurfacePattern::background_windows_brick() {
        SurfacePattern::brick()
    } else if pattern == SurfacePattern::background_windows_cladding() {
        SurfacePattern::vertical_cladding()
    } else {
        SurfacePattern::smooth()
    }
}

/// The treatment of the caps of a wall with a treatment: no windows.
#[verifier::when_used_as_spec(spec_background_cap_pattern)]
pub fn background_cap_pattern(pattern: SurfacePattern) -> (r: SurfacePattern)
    ensures
        r == spec_background_cap_pattern(pattern),
{
    if pattern == SurfacePattern::background_windows_brick() {
        SurfacePattern::brick()
    } else if pattern == SurfacePattern::background_windows_cladding() {
        SurfacePattern::vertical_cladding()
    } else {
        SurfacePattern::smooth()
    }
}

/// A face of a neighbouring mass in the world.
pub open spec fn spec_background_box_patch(
    center: [Single; 3],
    size: [Single; 3],
    half: Turn,
    appearance: [Single; 4],
    wall_pattern: SurfacePattern,
    i: u32,
) -> Patch {
    Patch::Quad {
        corners: placed_face(half, center, box_face(size, i)),
        material: MaterialSlot::BackgroundWall,
        appearance,
        pattern: if i < 4 {
            wall_pattern
        } else {
            background_cap_pattern(wall_pattern)
        },
    }
}

/// A face of a neighbouring mass in the world.
#[verifier::when_used_as_spec(spec_background_box_patch)]
pub fn background_box_patch(
    center: [Single; 3],
    size: [Single; 3],
    half: Turn,
    appearance: [Single; 4],
    wall_pattern: SurfacePattern,
    i: u32,
) -> (r: Patch)
    ensures
        r == spec_background_box_patch(center, size, half, appearance, wall_pattern, i),
{
    Patch::Quad {
        corners: placed_face(half, center, box_face(size, i)),
        material: MaterialSlot::BackgroundWall,
        appearance,
        pattern: if i < 4 {
            wall_pattern
        } else {
            background_cap_pattern(wall_pattern)
        },
    }
}

/// The walls and caps of a neighbouring mass.
pub open spec fn background_box_patches(
    center: [Single; 3],
    size: [Single; 3],
    half: Turn,
    appearance: [Single; 4],
    wall_pattern: SurfacePattern,
) -> Seq<Patch> {
    Seq::new(
        6,
        |i: int| background_box_patch(center, size, half, appearance, wall_pattern, i as u32),
    )
}

/// Adds the walls and caps of a neighbouring mass.
pub fn append_background_box(
    out: &mut Vec<Patch>,
    center: [Single; 3],
    size: [Single; 3],
    half: Turn,
    appearance: [Single; 4],
    wall_pattern: SurfacePattern,
)
    ensures
        final(out)@ == old(out)@ + background_box_patches(
            center,
            size,
            half,
            appearance,
            wall_pattern,
        ),
{
    let ghost begun = out@;
    let mut i: u32 = 0;
    while i < 6
        invariant
            i <= 6,
            out@.len() == begun.len() + i,
            forall|j: int| 0 <= j < begun.len() ==> #[trigger] out@[j] == begun[j],
            forall|j: int|
                begun.len() <= j < out@.len() ==> #[trigger] out@[j] == background_box_patch(
                    center, size, half, appearance, wall_pattern,
                    (j - begun.len()) as u32,
                ),
        decreases 6 - i,
    {
        out.push(background_box_patch(center, size, half, appearance, wall_pattern, i));
        i = i + 1;
    }
    assert(out@ =~= begun + background_box_patches(center, size, half, appearance, wall_pattern));
}

/// A face of a sign panel: two with the artwork, then four of plain trim.
pub open spec fn spec_panel_tinted_pattern_patch(
    center: [Single; 3],
    size: [Single; 3],
    half: Turn,
    face_material: MaterialSlot,
    appearance: [Single; 4],
    pattern: SurfacePattern,
    i: u32,
) -> Patch {
    if i < 2 {
        Patch::Quad {
            corners: placed_face(half, center, box_face(size, if i == 0 { 0 } else { 2 })),
            material: face_material,
            appearance,
            pattern,
        }
    } else {
        Patch::Quad {
            corners: placed_face(
                half,
                center,
                box_face(size, if i == 2 { 1 } else if i == 3 { 3 } else { i }),
            ),
            material: MaterialSlot::Trim,
            appearance: untinted(),
            pattern: SurfacePattern::smooth(),
        }
    }
}

/// A face of a sign panel: two with the artwork, then four of plain trim.
#[verifier::when_used_as_spec(spec_panel_tinted_pattern_patch)]
pub fn panel_tinted_pattern_patch(
    center: [Single; 3],
    size: [Single; 3],
    half: Turn,
    face_material: MaterialSlot,
    appearance: [Single; 4],
    pattern: SurfacePattern,
    i: u32,
) -> (r: Patch)
    ensures
        r == spec_panel_tinted_pattern_patch(
            center,
            size,
            half,
            face_material,
            appearance,
            pattern,
            i,
        ),
{
    if i < 2 {
        Patch::Quad {
            corners: placed_face(half, center, box_face(size, if i == 0 { 0 } else { 2 })),
            material: face_material,
            appearance,
            pattern,
        }
    } else {
        Patch::Quad {
            corners: placed_face(
                half,
                center,
                box_face(size, if i == 2 { 1 } else if i == 3 { 3 } else { i }),
            ),
            material: MaterialSlot::Trim,
            appearance: untinted(),
            pattern: SurfacePattern::smooth(),
        }
    }
}

/// The faces of a sign panel.
pub open spec fn panel_tinted_pattern_patches(
    center: [Single; 3],
    size: [Single; 3],
    half: Turn,
    face_material: MaterialSlot,
    appearance: [Single; 4],
    pattern: SurfacePattern,
) -> Seq<Patch> {
    Seq::new(
        6,
        |i: int| panel_tinted_pattern_patch(
            center,
            size,
            half,
            face_material,
            appearance,
            pattern,
            i as u32,
        ),
    )
}

/// Adds the faces of a sign panel.
pub fn append_panel_tinted_pattern(
    out: &mut Vec<Patch>,
    center: [Single; 3],
    size: [Single; 3],
    half: Turn,
    face_material: MaterialSlot,
    appearance: [Single; 4],
    pattern: SurfacePattern,
)
    ensures
        final(out)@ == old(out)@ + panel_tinted_pattern_patches(
            center,
            size,
            half,
            face_material,
            appearance,
            pattern,
        ),
{
    let ghost begun = out@;
    let mut i: u32 = 0;
    while i < 6
        invariant
            i <= 6,
            out@.len() == begun.len() + i,
            forall|j: int| 0 <= j < begun.len() ==> #[trigger] out@[j] == begun[j],
            forall|j: int|
                begun.len() <= j < out@.len() ==> #[trigger] out@[j] == panel_tinted_pattern_patch(
                    center, size, half, face_material, appearance, pattern,
                    (j - begun.len()) as u32,
                ),
        decreases 6 - i,
    {
        out.push(
            panel_tinted_pattern_patch(center, size, half, face_material, appearance, pattern, i),
        );
        i = i + 1;
    }
    assert(
        out@ =~= begun + panel_tinted_pattern_patches(
            center,
            size,
            half,
            face_material,
            appearance,
            pattern,
        )
    );
}

/// A point of the wall of a cylinder.
pub open spec fn spec_cylinder_point(
    base: [Single; 3],
    radius: Single,
    turn: Turn,
    y: Single,
) -> [Single; 3] {
    [base[0].plus(radius.times(turn.cosine)), y, base[2].plus(radius.times(turn.sine))]
}

/// A point of the wall of a cylinder.
#[verifier::when_used_as_spec(spec_cylinder_point)]
pub fn cylinder_point(
    base: [Single; 3],
    radius: Single,
    turn: Turn,
    y: Single,
) -> (r: [Single; 3])
    ensures
        r == spec_cylinder_point(base, radius, turn, y),
{
    [base[0].plus(radius.times(turn.cosine)), y, base[2].plus(radius.times(turn.sine))]
}

/// A side of an upright cylinder between two turns.
pub open spec fn spec_cylinder_side(
    base: [Single; 3],
    radius: Single,
    height: Single,
    near: Turn,
    far: Turn,
    material: MaterialSlot,
) -> Patch {
    let top = base[1].plus(height);
    Patch::Quad {
        corners: [
            cylinder_point(base, radius, far, base[1]),
            cylinder_point(base, radius, near, base[1]),
            cylinder_point(base, radius, near, top),
            cylinder_point(base, radius, far, top),
        ],
        material,
        appearance: untinted(),
        pattern: SurfacePattern::inherit(),
    }
}

/// A side of an upright cylinder between two turns.
#[verifier::when_used_as_spec(spec_cylinder_side)]
pub fn cylinder_side(
    base: [Single; 3],
    radius: Single,
    height: Single,
    near: Turn,
    far: Turn,
    material: MaterialSlot,
) -> (r: Patch)
    ensures
        r == spec_cylinder_side(base, radius, height, near, far, material),
{
    let top = base[1].plus(height);
    Patch::Quad {
        corners: [
            cylinder_point(base, radius, far, base[1]),
            cylinder_point(base, radius, near, base[1]),
            cylinder_point(base, radius, near, top),
            cylinder_point(base, radius, far, top),
        ],
        material,
        appearance: untinted(),
        pattern: SurfacePattern::inherit(),
    }
}

/// The sides of an upright cylinder.
pub open spec fn cylinder_patches(
    base: [Single; 3],
    radius: Single,
    height: Single,
    turns: RoundTurns,
    material: MaterialSlot,
) -> Seq<Patch> {
    seq![cylinder_side(base, radius, height, cylinder_turn(turns, 0), cylinder_turn(turns, 1), material)]
        + seq![cylinder_side(base, radius, height, cylinder_turn(turns, 1), cylinder_turn(turns, 2), material)]
        + seq![cylinder_side(base, radius, height, cylinder_turn(turns, 2), cylinder_turn(turns, 3), material)]
        + seq![cylinder_side(base, radius, height, cylinder_turn(turns, 3), cylinder_turn(turns, 4), material)]
        + seq![cylinder_side(base, radius, height, cylinder_turn(turns, 4), cylinder_turn(turns, 5), material)]
        + seq![cylinder_side(base, radius, height, cylinder_turn(turns, 5), cylinder_turn(turns, 6), material)]
        + seq![cylinder_side(base, radius, height, cylinder_turn(turns, 6), cylinder_turn(turns, 7), material)]
        + seq![cylinder_side(base, radius, height, cylinder_turn(turns, 7), cylinder_turn(turns, 8), material)]
}

/// Adds the sides of an upright cylinder.
pub fn append_cylinder(
    out: &mut Vec<Patch>,
    base: [Single; 3],
    radius: Single,
    height: Single,
    turns: RoundTurns,
    material: MaterialSlot,
)
    ensures
        final(out)@ == old(out)@ + cylinder_patches(base, radius, height, turns, material),
{
    append_patch(
        out,
        cylinder_side(
            base,
            radius,
            height,
            cylinder_turn(turns, 0),
            cylinder_turn(turns, 1),
            material,
        ),
    );
    append_patch(
        out,
        cylinder_side(
            base,
            radius,
            height,
            cylinder_turn(turns, 1),
            cylinder_turn(turns, 2),
            material,
        ),
    );
    append_patch(
        out,
        cylinder_side(
            base,
            radius,
            height,
            cylinder_turn(turns, 2),
            cylinder_turn(turns, 3),
            material,
        ),
    );
    append_patch(
        out,
        cylinder_side(
            base,
            radius,
            height,
            cylinder_turn(turns, 3),
            cylinder_turn(turns, 4),
            material,
        ),
    );
    append_patch(
        out,
        cylinder_side(
            base,
            radius,
            height,
            cylinder_turn(turns, 4),
            cylinder_turn(turns, 5),
            material,
        ),
    );
    append_patch(
        out,
        cylinder_side(
            base,
            radius,
            height,
            cylinder_turn(turns, 5),
            cylinder_turn(turns, 6),
            material,
        ),
    );
    append_patch(
        out,
        cylinder_side(
            base,
            radius,
            height,
            cylinder_turn(turns, 6),
            cylinder_turn(turns, 7),
            material,
        ),
    );
    append_patch(
        out,
        cylinder_side(
            base,
            radius,
            height,
            cylinder_turn(turns, 7),
            cylinder_turn(turns, 8),
            material,
        ),
    );
}

/// The rounded mass of an ellipsoid.
pub open spec fn ellipsoid_tinted_patches(
    center: [Single; 3],
    radii: [Single; 3],
    material: MaterialSlot,
    appearance: [Single; 4],
) -> Seq<Patch> {
    seq![Patch::Ellipsoid { center, radii, material, appearance }]
}

/// Adds the rounded mass of an ellipsoid.
pub fn append_ellipsoid_tinted(
    out: &mut Vec<Patch>,
    center: [Single; 3],
    radii: [Single; 3],
    material: MaterialSlot,
    appearance: [Single; 4],
)
    ensures
        final(out)@ == old(out)@ + ellipsoid_tinted_patches(center, radii, material, appearance),
{
    append_patch(out, Patch::Ellipsoid { center, radii, material, appearance });
}

/// The quad between four points.
pub open spec fn quad_tinted_pattern_patches(
    corners: [[Single; 3]; 4],
    material: MaterialSlot,
    appearance: [Single; 4],
    pattern: SurfacePattern,
) -> Seq<Patch> {
    seq![Patch::Quad { corners, material, appearance, pattern }]
}

/// Adds the quad between four points.
pub fn append_quad_tinted_pattern(
    out: &mut Vec<Patch>,
    corners: [[Single; 3]; 4],
    material: MaterialSlot,
    appearance: [Single; 4],
    pattern: SurfacePattern,
)
    ensures
        final(out)@ == old(out)@ + quad_tinted_pattern_patches(
            corners,
            material,
            appearance,
            pattern,
        ),
{
    append_patch(out, Patch::Quad { corners, material, appearance, pattern });
}

/// The tinted quad between four points that inherits its treatment.
pub open spec fn quad_tinted_patches(
    corners: [[Single; 3]; 4],
    material: MaterialSlot,
    appearance: [Single; 4],
) -> Seq<Patch> {
    quad_tinted_pattern_patches(corners, material, appearance, SurfacePattern::inherit())
}

/// Adds the tinted quad between four points that inherits its treatment.
pub fn append_quad_tinted(
    out: &mut Vec<Patch>,
    corners: [[Single; 3]; 4],
    material: MaterialSlot,
    appearance: [Single; 4],
)
    ensures
        final(out)@ == old(out)@ + quad_tinted_patches(corners, material, appearance),
{
    append_quad_tinted_pattern(out, corners, material, appearance, SurfacePattern::inherit());
}

/// The plain quad between four points.
pub open spec fn quad_patches(corners: [[Single; 3]; 4], material: MaterialSlot) -> Seq<Patch> {
    quad_tinted_patches(corners, material, untinted())
}

/// Adds the plain quad between four points.
pub fn append_quad(out: &mut Vec<Patch>, corners: [[Single; 3]; 4], material: MaterialSlot)
    ensures
        final(out)@ == old(out)@ + quad_patches(corners, material),
{
    append_quad_tinted(out, corners, material, untinted());
}

/// The triangle between three points.
pub open spec fn unlabelled_triangle_patches(
    corners: [[Single; 3]; 3],
    material: MaterialSlot,
) -> Seq<Patch> {
    seq![Patch::Triangle { corners, material }]
}

/// Adds the triangle between three points.
pub fn append_unlabelled_triangle(
    out: &mut Vec<Patch>,
    corners: [[Single; 3]; 3],
    material: MaterialSlot,
)
    ensures
        final(out)@ == old(out)@ + unlabelled_triangle_patches(corners, material),
{
    append_patch(out, Patch::Triangle { corners, material });
}

/// The four slopes of a pyramid roof.
pub open spec fn pyramid_patches(x: Single, z: Single, y: Single, top: Single) -> Seq<Patch> {
    unlabelled_triangle_patches([
        [x.negated(), y, z.negated()],
        [x, y, z.negated()],
        [Single::zero(), top, Single::zero()],
    ], MaterialSlot::Roof)
        + unlabelled_triangle_patches([
            [x, y, z],
            [x.negated(), y, z],
            [Single::zero(), top, Single::zero()],
        ], MaterialSlot::Roof)
        + unlabelled_triangle_patches([
            [x.negated(), y, z],
            [x.negated(), y, z.negated()],
            [Single::zero(), top, Single::zero()],
        ], MaterialSlot::Roof)
        + unlabelled_triangle_patches([
            [x, y, z.negated()],
            [x, y, z],
            [Single::zero(), top, Single::zero()],
        ], MaterialSlot::Roof)
}

/// Adds the four slopes of a pyramid roof.
pub fn append_pyramid(out: &mut Vec<Patch>, x: Single, z: Single, y: Single, top: Single)
    ensures
        final(out)@ == old(out)@ + pyramid_patches(x, z, y, top),
{
    append_unlabelled_triangle(out, [
        [x.negated(), y, z.negated()],
        [x, y, z.negated()],
        [Single::zero(), top, Single::zero()],
    ], MaterialSlot::Roof);
    append_unlabelled_triangle(out, [
        [x, y, z],
        [x.negated(), y, z],
        [Single::zero(), top, Single::zero()],
    ], MaterialSlot::Roof);
    append_unlabelled_triangle(out, [
        [x.negated(), y, z],
        [x.negated(), y, z.negated()],
        [Single::zero(), top, Single::zero()],
    ], MaterialSlot::Roof);
    append_unlabelled_triangle(out, [
        [x, y, z.negated()],
        [x, y, z],
        [Single::zero(), top, Single::zero()],
    ], MaterialSlot::Roof);
}

/// The four slopes of a roof that is cut off at the top.
pub open spec fn frustum_sides_patches(
    lower_x: Single,
    lower_z: Single,
    lower_y: Single,
    upper_x: Single,
    upper_z: Single,
    upper_y: Single,
) -> Seq<Patch> {
    quad_patches([
        [lower_x.negated(), lower_y, lower_z.negated()],
        [lower_x, lower_y, lower_z.negated()],
        [upper_x, upper_y, upper_z.negated()],
        [upper_x.negated(), upper_y, upper_z.negated()],
    ], MaterialSlot::Roof)
        + quad_patches([
            [lower_x, lower_y, lower_z],
            [lower_x.negated(), lower_y, lower_z],
            [upper_x.negated(), upper_y, upper_z],
            [upper_x, upper_y, upper_z],
        ], MaterialSlot::Roof)
        + quad_patches([
            [lower_x.negated(), lower_y, lower_z],
            [lower_x.negated(), lower_y, lower_z.negated()],
            [upper_x.negated(), upper_y, upper_z.negated()],
            [upper_x.negated(), upper_y, upper_z],
        ], MaterialSlot::Roof)
        + quad_patches([
            [lower_x, lower_y, lower_z.negated()],
            [lower_x, lower_y, lower_z],
            [upper_x, upper_y, upper_z],
            [upper_x, upper_y, upper_z.negated()],
        ], MaterialSlot::Roof)
}

/// Adds the four slopes of a roof that is cut off at the top.
pub fn append_frustum_sides(
    out: &mut Vec<Patch>,
    lower_x: Single,
    lower_z: Single,
    lower_y: Single,
    upper_x: Single,
    upper_z: Single,
    upper_y: Single,
)
    ensures
        final(out)@ == old(out)@ + frustum_sides_patches(
            lower_x,
            lower_z,
            lower_y,
            upper_x,
            upper_z,
            upper_y,
        ),
{
    append_quad(out, [
        [lower_x.negated(), lower_y, lower_z.negated()],
        [lower_x, lower_y, lower_z.negated()],
        [upper_x, upper_y, upper_z.negated()],
        [upper_x.negated(), upper_y, upper_z.negated()],
    ], MaterialSlot::Roof);
    append_quad(out, [
        [lower_x, lower_y, lower_z],
        [lower_x.negated(), lower_y, lower_z],
        [upper_x.negated(), upper_y, upper_z],
        [upper_x, upper_y, upper_z],
    ], MaterialSlot::Roof);
    append_quad(out, [
        [lower_x.negated(), lower_y, lower_z],
        [lower_x.negated(), lower_y, lower_z.negated()],
        [upper_x.negated(), upper_y, upper_z.negated()],
        [upper_x.negated(), upper_y, upper_z],
    ], MaterialSlot::Roof);
    append_quad(out, [
        [lower_x, lower_y, lower_z.negated()],
        [lower_x, lower_y, lower_z],
        [upper_x, upper_y, upper_z],
        [upper_x, upper_y, upper_z.negated()],
    ], MaterialSlot::Roof);
}

/// Whether a vector is nothing.
pub open spec fn spec_is_zero(v: [Single; 3]) -> bool {
    v[0].equals(Single::zero()) && v[1].equals(Single::zero()) && v[2].equals(Single::zero())
}

/// Whether a vector is nothing.
#[verifier::when_used_as_spec(spec_is_zero)]
pub fn is_zero(v: [Single; 3]) -> (r: bool)
    ensures
        r == spec_is_zero(v),
{
    v[0].equals(Single::zero()) && v[1].equals(Single::zero()) && v[2].equals(Single::zero())
}

/// World up, or the first axis for a direction that is nearly upright.
pub open spec fn spec_beam_reference(direction: [Single; 3]) -> [Single; 3] {
    let up = [Single::zero(), Single::one(), Single::zero()];
    if Single::ratio(95, 100).less(dot(direction, up).abs()) {
        [Single::one(), Single::zero(), Single::zero()]
    } else {
        up
    }
}

/// World up, or the first axis for a direction that is nearly upright.
#[verifier::when_used_as_spec(spec_beam_reference)]
pub fn beam_reference(direction: [Single; 3]) -> (r: [Single; 3])
    ensures
        r == spec_beam_reference(direction),
{
    let up = [Single::zero(), Single::one(), Single::zero()];
    if Single::ratio(95, 100).less(dot(direction, up).abs()) {
        [Single::one(), Single::zero(), Single::zero()]
    } else {
        up
    }
}

/// A corner of the end of a beam.
pub open spec fn spec_beam_corner(
    end: [Single; 3],
    side: [Single; 3],
    up: [Single; 3],
    right: bool,
    high: bool,
) -> [Single; 3] {
    let across = if right { moved(end, side) } else { offset(end, side) };
    if high {
        moved(across, up)
    } else {
        offset(across, up)
    }
}

/// A corner of the end of a beam.
#[verifier::when_used_as_spec(spec_beam_corner)]
pub fn beam_corner(
    end: [Single; 3],
    side: [Single; 3],
    up: [Single; 3],
    right: bool,
    high: bool,
) -> (r: [Single; 3])
    ensures
        r == spec_beam_corner(end, side, up, right, high),
{
    let across = if right { moved(end, side) } else { offset(end, side) };
    if high {
        moved(across, up)
    } else {
        offset(across, up)
    }
}

/// One long side of a beam: below, to the right, above or to the left.
pub open spec fn spec_beam_side(
    start: [Single; 3],
    end: [Single; 3],
    side: [Single; 3],
    up: [Single; 3],
    from_right: bool,
    from_high: bool,
    to_right: bool,
    to_high: bool,
) -> [[Single; 3]; 4] {
    [
        beam_corner(start, side, up, from_right, from_high),
        beam_corner(end, side, up, from_right, from_high),
        beam_corner(end, side, up, to_right, to_high),
        beam_corner(start, side, up, to_right, to_high),
    ]
}

/// One long side of a beam: below, to the right, above or to the left.
#[verifier::when_used_as_spec(spec_beam_side)]
pub fn beam_side(
    start: [Single; 3],
    end: [Single; 3],
    side: [Single; 3],
    up: [Single; 3],
    from_right: bool,
    from_high: bool,
    to_right: bool,
    to_high: bool,
) -> (r: [[Single; 3]; 4])
    ensures
        r == spec_beam_side(start, end, side, up, from_right, from_high, to_right, to_high),
{
    [
        beam_corner(start, side, up, from_right, from_high),
        beam_corner(end, side, up, from_right, from_high),
        beam_corner(end, side, up, to_right, to_high),
        beam_corner(start, side, up, to_right, to_high),
    ]
}

/// The four long sides of a beam between two points, where it has a direction.
pub open spec fn beam_patches(
    start: [Single; 3],
    end: [Single; 3],
    radius: Single,
    material: MaterialSlot,
) -> Seq<Patch> {
    let direction = unit_or_zero(offset(end, start));
    let side = scaled(unit(cross(direction, beam_reference(direction))), radius);
    let up = scaled(unit(cross(side, direction)), radius);
    (if !is_zero(direction) {
        quad_patches(beam_side(start, end, side, up, false, false, true, false), material)
            + quad_patches(beam_side(start, end, side, up, true, false, true, true), material)
            + quad_patches(beam_side(start, end, side, up, true, true, false, true), material)
            + quad_patches(beam_side(start, end, side, up, false, true, false, false), material)
    } else {
        Seq::<Patch>::empty()
    })
}

/// Adds the four long sides of a beam between two points, where it has a direction.
pub fn append_beam(
    out: &mut Vec<Patch>,
    start: [Single; 3],
    end: [Single; 3],
    radius: Single,
    material: MaterialSlot,
)
    ensures
        final(out)@ == old(out)@ + beam_patches(start, end, radius, material),
{
    let direction = unit_or_zero(offset(end, start));
    let side = scaled(unit(cross(direction, beam_reference(direction))), radius);
    let up = scaled(unit(cross(side, direction)), radius);
    if !is_zero(direction) {
        append_quad(out, beam_side(start, end, side, up, false, false, true, false), material);
        append_quad(out, beam_side(start, end, side, up, true, false, true, true), material);
        append_quad(out, beam_side(start, end, side, up, true, true, false, true), material);
        append_quad(out, beam_side(start, end, side, up, false, true, false, false), material);
    }
}

/// The caps of a neighbouring mass never carry windows.
pub proof fn caps_have_no_windows(
    center: [Single; 3],
    size: [Single; 3],
    half: Turn,
    appearance: [Single; 4],
    wall_pattern: SurfacePattern,
    i: int,
)
    requires
        4 <= i < 6,
    ensures
        background_box_patches(center, size, half, appearance, wall_pattern)[i] is Quad,
        background_box_patches(center, size, half, appearance, wall_pattern)[i]->Quad_pattern
            != SurfacePattern::background_windows(),
        background_box_patches(center, size, half, appearance, wall_pattern)[i]->Quad_pattern
            != SurfacePattern::background_windows_brick(),
        background_box_patches(center, size, half, appearance, wall_pattern)[i]->Quad_pattern
            != SurfacePattern::background_windows_cladding(),
{
}

/// The artwork of a sign panel is on two faces and nowhere else.
pub proof fn artwork_has_two_faces(
    center: [Single; 3],
    size: [Single; 3],
    half: Turn,
    face_material: MaterialSlot,
    appearance: [Single; 4],
    pattern: SurfacePattern,
    i: int,
)
    requires
        0 <= i < 6,
        face_material != MaterialSlot::Trim,
    ensures
        panel_tinted_pattern_patches(center, size, half, face_material, appearance, pattern)[i] is Quad,
        panel_tinted_pattern_patches(center, size, half, face_material, appearance, pattern)[i]->Quad_material
            == face_material <==> i < 2,
{
}

} // verus!
