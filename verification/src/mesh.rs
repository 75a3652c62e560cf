//! Indexed triangle meshes that carry structural labels.

use crate::assembly::{append_context, append_ordinary_roof, SceneLooks};
use crate::patch::Patch;
use crate::plan::SampledOrdinaryRoof;
use crate::render_error::RenderError;
use crate::scene::{
    all_finite, lights_hold, RenderEnvironment, SceneDescription, SceneLight, SceneModel,
    MAX_LIGHTS,
};
use crate::shapes::{
    cross, offset, ring_share, rings_turn, segment_share, segments_turn, unit, unit_or_zero,
    RoundTurns,
};
use crate::single::Single;
use crate::surface::{MaterialSelection, MaterialSlot, SurfacePattern};
use vstd::prelude::*;

verus! {

/// A vertex carrying both appearance geometry and exact structural labels.
#[derive(Clone, Copy, Debug, PartialEq)]
pub struct RenderVertex {
    /// World-space position, in the generator's shared coordinate system.
    pub position: [Single; 3],
    /// World-space surface normal.
    pub normal: [Single; 3],
    /// Normalized local coordinates within the semantic roof face.
    pub face_coord: [Single; 2],
    /// Stable semantic face identifier. Zero is reserved for background.
    pub semantic_id: u32,
    /// Appearance material selected independently from semantic labels.
    pub material: MaterialSlot,
    /// Per-instance RGB tint and material-specific scalar control.
    pub appearance: [Single; 4],
    /// Procedural treatment override, or [`SurfacePattern::inherit`].
    pub pattern: SurfacePattern,
}

impl RenderVertex {
    /// Whether every number is finite and the treatment is known.
    pub open spec fn spec_is_valid(self) -> bool {
        all_finite(self.position) && all_finite(self.normal) && self.face_coord[0].is_finite()
            && self.face_coord[1].is_finite() && self.appearance[0].is_finite()
            && self.appearance[1].is_finite() && self.appearance[2].is_finite()
            && self.appearance[3].is_finite() && self.pattern.is_known()
    }

    /// Whether every number is finite and the treatment is known.
    #[verifier::when_used_as_spec(spec_is_valid)]
    pub fn is_valid(self) -> (r: bool)
        ensures
            r == self.spec_is_valid(),
    {
        all_finite(self.position) && all_finite(self.normal) && self.face_coord[0].is_finite()
            && self.face_coord[1].is_finite() && self.appearance[0].is_finite()
            && self.appearance[1].is_finite() && self.appearance[2].is_finite()
            && self.appearance[3].is_finite() && self.pattern.is_known()
    }
}

/// Indexed geometry accepted by the synthetic renderer.
#[derive(Clone, Debug, PartialEq)]
pub struct RenderMesh {
    /// Vertices with semantic attributes.
    pub vertices: Vec<RenderVertex>,
    /// Triangle-list indices.
    pub indices: Vec<u32>,
    /// Environment controls used by procedural surfaces and sky fallback.
    pub environment: RenderEnvironment,
    /// Logical material slots mapped to resident physical texture layers.
    pub materials: MaterialSelection,
    /// Local lights used primarily for credible night scenes.
    pub lights: Vec<SceneLight>,
}

/// All that a mesh holds.
pub struct MeshModel {
    /// See [`RenderMesh::vertices`].
    pub vertices: Seq<RenderVertex>,
    /// See [`RenderMesh::indices`].
    pub indices: Seq<u32>,
    /// See [`RenderMesh::environment`].
    pub environment: RenderEnvironment,
    /// See [`RenderMesh::materials`].
    pub materials: MaterialSelection,
    /// See [`RenderMesh::lights`].
    pub lights: Seq<SceneLight>,
}

impl View for RenderMesh {
    type V = MeshModel;

    open spec fn view(&self) -> MeshModel {
        MeshModel {
            vertices: self.vertices@,
            indices: self.indices@,
            environment: self.environment,
            materials: self.materials,
            lights: self.lights@,
        }
    }
}

impl Default for RenderMesh {
    fn default() -> (r: RenderMesh)
        ensures
            r.vertices@.len() == 0,
            r.indices@.len() == 0,
            r.environment == RenderEnvironment::standard(),
            r.materials == MaterialSelection::standard(),
            r.lights@.len() == 0,
    {
        RenderMesh {
            vertices: Vec::new(),
            indices: Vec::new(),
            environment: RenderEnvironment::standard(),
            materials: MaterialSelection::standard(),
            lights: Vec::new(),
        }
    }
}

/// The first of `n` indices that names no vertex.
pub open spec fn stray_index(indices: Seq<u32>, vertex_count: int, n: int) -> Option<u32>
    decreases n,
{
    if n <= 0 {
        None
    } else if stray_index(indices, vertex_count, n - 1) is Some {
        stray_index(indices, vertex_count, n - 1)
    } else if indices[n - 1] >= vertex_count {
        Some(indices[n - 1])
    } else {
        None
    }
}

/// Whether every vertex is valid.
pub open spec fn valid_vertices(vertices: Seq<RenderVertex>) -> bool {
    forall|i: int| 0 <= i < vertices.len() ==> (#[trigger] vertices[i]).is_valid()
}

impl MeshModel {
    /// What a check of the mesh finds.
    pub open spec fn outcome(self) -> Result<(), RenderError> {
        let stray = stray_index(
            self.indices,
            self.vertices.len() as int,
            self.indices.len() as int,
        );
        if self.vertices.len() == 0 {
            Err(RenderError::EmptyMesh)
        } else if self.indices.len() == 0 || self.indices.len() % 3 != 0 {
            Err(RenderError::InvalidIndexCount(self.indices.len() as usize))
        } else if stray is Some {
            Err(
                RenderError::IndexOutOfBounds {
                    index: stray->0,
                    vertex_count: self.vertices.len() as usize,
                },
            )
        } else if !valid_vertices(self.vertices) {
            Err(RenderError::NonFiniteVertex)
        } else if self.lights.len() > MAX_LIGHTS || !crate::scene::valid_lights(self.lights)
            || !self.environment.is_valid() {
            Err(RenderError::InvalidSceneDescription)
        } else {
            Ok(())
        }
    }
}

fn find_stray_index(indices: &Vec<u32>, vertex_count: usize) -> (r: Option<u32>)
    ensures
        r == stray_index(indices@, vertex_count as int, indices@.len() as int),
{
    let mut i: usize = 0;
    while i < indices.len()
        invariant
            i <= indices@.len(),
            stray_index(indices@, vertex_count as int, i as int) is None,
        decreases indices@.len() - i,
    {
        if indices[i] as u64 >= vertex_count as u64 {
            proof {
                lemma_stray_is_first(
                    indices@,
                    vertex_count as int,
                    i + 1,
                    indices@.len() as int,
                );
            }
            return Some(indices[i]);
        }
        i = i + 1;
    }
    None
}

proof fn lemma_stray_is_first(indices: Seq<u32>, vertex_count: int, n: int, m: int)
    requires
        0 <= n <= m,
        stray_index(indices, vertex_count, n) is Some,
    ensures
        stray_index(indices, vertex_count, m) == stray_index(indices, vertex_count, n),
    decreases m - n,
{
    if n < m {
        lemma_stray_is_first(indices, vertex_count, n, m - 1);
    }
}

fn vertices_hold(vertices: &Vec<RenderVertex>) -> (r: bool)
    ensures
        r == valid_vertices(vertices@),
{
    let mut i: usize = 0;
    while i < vertices.len()
        invariant
            i <= vertices@.len(),
            forall|j: int| 0 <= j < i ==> (#[trigger] vertices@[j]).is_valid(),
        decreases vertices@.len() - i,
    {
        if !vertices[i].is_valid() {
            return false;
        }
        i = i + 1;
    }
    true
}

/// Corner coordinates within a quad.
pub open spec fn spec_quad_coord(i: u32) -> [Single; 2] {
    if i == 0 {
        [Single::zero(), Single::zero()]
    } else if i == 1 {
        [Single::one(), Single::zero()]
    } else if i == 2 {
        [Single::one(), Single::one()]
    } else {
        [Single::zero(), Single::one()]
    }
}

/// Corner coordinates within a quad.
#[verifier::when_used_as_spec(spec_quad_coord)]
pub fn quad_coord(i: u32) -> (r: [Single; 2])
    ensures
        r == spec_quad_coord(i),
{
    if i == 0 {
        [Single::zero(), Single::zero()]
    } else if i == 1 {
        [Single::one(), Single::zero()]
    } else if i == 2 {
        [Single::one(), Single::one()]
    } else {
        [Single::zero(), Single::one()]
    }
}

/// Corner coordinates within a triangle.
pub open spec fn spec_triangle_coord(i: u32) -> [Single; 2] {
    if i == 0 {
        [Single::zero(), Single::zero()]
    } else if i == 1 {
        [Single::one(), Single::zero()]
    } else {
        [Single::ratio(5, 10), Single::one()]
    }
}

/// Corner coordinates within a triangle.
#[verifier::when_used_as_spec(spec_triangle_coord)]
pub fn triangle_coord(i: u32) -> (r: [Single; 2])
    ensures
        r == spec_triangle_coord(i),
{
    if i == 0 {
        [Single::zero(), Single::zero()]
    } else if i == 1 {
        [Single::one(), Single::zero()]
    } else {
        [Single::ratio(5, 10), Single::one()]
    }
}

/// A corner of a quad.
pub open spec fn spec_quad_corner(corners: [[Single; 3]; 4], i: u32) -> [Single; 3] {
    if i == 0 {
        corners[0]
    } else if i == 1 {
        corners[1]
    } else if i == 2 {
        corners[2]
    } else {
        corners[3]
    }
}

/// A corner of a quad.
#[verifier::when_used_as_spec(spec_quad_corner)]
pub fn quad_corner(corners: [[Single; 3]; 4], i: u32) -> (r: [Single; 3])
    ensures
        r == spec_quad_corner(corners, i),
{
    if i == 0 {
        corners[0]
    } else if i == 1 {
        corners[1]
    } else if i == 2 {
        corners[2]
    } else {
        corners[3]
    }
}

/// A corner of a triangle.
pub open spec fn spec_triangle_corner(corners: [[Single; 3]; 3], i: u32) -> [Single; 3] {
    if i == 0 {
        corners[0]
    } else if i == 1 {
        corners[1]
    } else {
        corners[2]
    }
}

/// A corner of a triangle.
#[verifier::when_used_as_spec(spec_triangle_corner)]
pub fn triangle_corner(corners: [[Single; 3]; 3], i: u32) -> (r: [Single; 3])
    ensures
        r == spec_triangle_corner(corners, i),
{
    if i == 0 {
        corners[0]
    } else if i == 1 {
        corners[1]
    } else {
        corners[2]
    }
}

/// Direction that a quad faces.
pub open spec fn spec_quad_normal(corners: [[Single; 3]; 4]) -> [Single; 3] {
    unit(cross(offset(corners[1], corners[0]), offset(corners[2], corners[0])))
}

/// Direction that a quad faces.
#[verifier::when_used_as_spec(spec_quad_normal)]
pub fn quad_normal(corners: [[Single; 3]; 4]) -> (r: [Single; 3])
    ensures
        r == spec_quad_normal(corners),
{
    unit(cross(offset(corners[1], corners[0]), offset(corners[2], corners[0])))
}

/// Direction that a triangle faces, or none where it has no area.
pub open spec fn spec_triangle_normal(corners: [[Single; 3]; 3]) -> [Single; 3] {
    unit_or_zero(cross(offset(corners[1], corners[0]), offset(corners[2], corners[0])))
}

/// Direction that a triangle faces, or none where it has no area.
#[verifier::when_used_as_spec(spec_triangle_normal)]
pub fn triangle_normal(corners: [[Single; 3]; 3]) -> (r: [Single; 3])
    ensures
        r == spec_triangle_normal(corners),
{
    unit_or_zero(cross(offset(corners[1], corners[0]), offset(corners[2], corners[0])))
}

/// Point of the unit sphere on a ring and a segment.
pub open spec fn spec_sphere_point(
    ring: crate::geometry::Turn,
    segment: crate::geometry::Turn,
) -> [Single; 3] {
    [ring.sine.times(segment.cosine), ring.cosine, ring.sine.times(segment.sine)]
}

/// Point of the unit sphere on a ring and a segment.
#[verifier::when_used_as_spec(spec_sphere_point)]
pub fn sphere_point(
    ring: crate::geometry::Turn,
    segment: crate::geometry::Turn,
) -> (r: [Single; 3])
    ensures
        r == spec_sphere_point(ring, segment),
{
    [ring.sine.times(segment.cosine), ring.cosine, ring.sine.times(segment.sine)]
}

/// A point of the unit sphere on an ellipsoid.
pub open spec fn spec_ellipsoid_position(
    center: [Single; 3],
    radii: [Single; 3],
    point: [Single; 3],
) -> [Single; 3] {
    [
        center[0].plus(point[0].times(radii[0])),
        center[1].plus(point[1].times(radii[1])),
        center[2].plus(point[2].times(radii[2])),
    ]
}

/// A point of the unit sphere on an ellipsoid.
#[verifier::when_used_as_spec(spec_ellipsoid_position)]
pub fn ellipsoid_position(
    center: [Single; 3],
    radii: [Single; 3],
    point: [Single; 3],
) -> (r: [Single; 3])
    ensures
        r == spec_ellipsoid_position(center, radii, point),
{
    [
        center[0].plus(point[0].times(radii[0])),
        center[1].plus(point[1].times(radii[1])),
        center[2].plus(point[2].times(radii[2])),
    ]
}

/// Direction that an ellipsoid faces at a point of the unit sphere.
pub open spec fn spec_ellipsoid_normal(radii: [Single; 3], point: [Single; 3]) -> [Single; 3] {
    unit_or_zero([point[0].over(radii[0]), point[1].over(radii[1]), point[2].over(radii[2])])
}

/// Direction that an ellipsoid faces at a point of the unit sphere.
#[verifier::when_used_as_spec(spec_ellipsoid_normal)]
pub fn ellipsoid_normal(radii: [Single; 3], point: [Single; 3]) -> (r: [Single; 3])
    ensures
        r == spec_ellipsoid_normal(radii, point),
{
    unit_or_zero([point[0].over(radii[0]), point[1].over(radii[1]), point[2].over(radii[2])])
}

/// Vertices that a patch is given.
pub open spec fn spec_patch_vertex_count(patch: Patch) -> u32 {
    match patch {
        Patch::Quad { .. } => 4,
        Patch::Triangle { .. } => 3,
        Patch::Ellipsoid { .. } => 104,
    }
}

/// Vertices that a patch is given.
#[verifier::when_used_as_spec(spec_patch_vertex_count)]
pub fn patch_vertex_count(patch: Patch) -> (r: u32)
    ensures
        r == spec_patch_vertex_count(patch),
{
    match patch {
        Patch::Quad { .. } => 4,
        Patch::Triangle { .. } => 3,
        Patch::Ellipsoid { .. } => 104,
    }
}

/// Indices that a patch is given.
pub open spec fn spec_patch_index_count(patch: Patch) -> u32 {
    match patch {
        Patch::Quad { .. } => 6,
        Patch::Triangle { .. } => 3,
        Patch::Ellipsoid { .. } => 504,
    }
}

/// Indices that a patch is given.
#[verifier::when_used_as_spec(spec_patch_index_count)]
pub fn patch_index_count(patch: Patch) -> (r: u32)
    ensures
        r == spec_patch_index_count(patch),
{
    match patch {
        Patch::Quad { .. } => 6,
        Patch::Triangle { .. } => 3,
        Patch::Ellipsoid { .. } => 504,
    }
}

/// A vertex of a patch. No patch carries a structural label.
pub open spec fn spec_patch_vertex(patch: Patch, round: RoundTurns, i: u32) -> RenderVertex {
    match patch {
        Patch::Quad { corners, material, appearance, pattern } => RenderVertex {
            position: quad_corner(corners, i),
            normal: quad_normal(corners),
            face_coord: quad_coord(i),
            semantic_id: 0,
            material,
            appearance,
            pattern,
        },
        Patch::Triangle { corners, material } => RenderVertex {
            position: triangle_corner(corners, i),
            normal: triangle_normal(corners),
            face_coord: triangle_coord(i),
            semantic_id: 0,
            material,
            appearance: crate::shapes::untinted(),
            pattern: SurfacePattern::inherit(),
        },
        Patch::Ellipsoid { center, radii, material, appearance } => {
            let point = sphere_point(rings_turn(round, i / 13), segments_turn(round, i % 13));
            RenderVertex {
                position: ellipsoid_position(center, radii, point),
                normal: ellipsoid_normal(radii, point),
                face_coord: [segment_share(i % 13), ring_share(i / 13)],
                semantic_id: 0,
                material,
                appearance,
                pattern: SurfacePattern::inherit(),
            }
        },
    }
}

/// A vertex of a patch. No patch carries a structural label.
#[verifier::when_used_as_spec(spec_patch_vertex)]
pub fn patch_vertex(patch: Patch, round: RoundTurns, i: u32) -> (r: RenderVertex)
    requires
        i < patch_vertex_count(patch),
    ensures
        r == spec_patch_vertex(patch, round, i),
{
    match patch {
        Patch::Quad { corners, material, appearance, pattern } => RenderVertex {
            position: quad_corner(corners, i),
            normal: quad_normal(corners),
            face_coord: quad_coord(i),
            semantic_id: 0,
            material,
            appearance,
            pattern,
        },
        Patch::Triangle { corners, material } => RenderVertex {
            position: triangle_corner(corners, i),
            normal: triangle_normal(corners),
            face_coord: triangle_coord(i),
            semantic_id: 0,
            material,
            appearance: crate::shapes::untinted(),
            pattern: SurfacePattern::inherit(),
        },
        Patch::Ellipsoid { center, radii, material, appearance } => {
            let point = sphere_point(rings_turn(round, i / 13), segments_turn(round, i % 13));
            RenderVertex {
                position: ellipsoid_position(center, radii, point),
                normal: ellipsoid_normal(radii, point),
                face_coord: [segment_share(i % 13), ring_share(i / 13)],
                semantic_id: 0,
                material,
                appearance,
                pattern: SurfacePattern::inherit(),
            }
        },
    }
}

/// Place of a corner of a triangle pair within four vertices.
pub open spec fn spec_quad_index(i: u32) -> u32 {
    if i == 0 || i == 3 {
        0
    } else if i == 1 {
        1
    } else if i == 2 || i == 4 {
        2
    } else {
        3
    }
}

/// Place of a corner of a triangle pair within four vertices.
#[verifier::when_used_as_spec(spec_quad_index)]
pub fn quad_index(i: u32) -> (r: u32)
    ensures
        r == spec_quad_index(i),
{
    if i == 0 || i == 3 {
        0
    } else if i == 1 {
        1
    } else if i == 2 || i == 4 {
        2
    } else {
        3
    }
}

/// Steps from the first corner of a cell of an ellipsoid to a corner of its triangles.
pub open spec fn spec_cell_step(i: u32) -> u32 {
    if i == 0 {
        0
    } else if i == 1 || i == 3 {
        1
    } else if i == 2 || i == 5 {
        13
    } else {
        14
    }
}

/// Steps from the first corner of a cell of an ellipsoid to a corner of its triangles.
#[verifier::when_used_as_spec(spec_cell_step)]
pub fn cell_step(i: u32) -> (r: u32)
    ensures
        r == spec_cell_step(i),
{
    if i == 0 {
        0
    } else if i == 1 || i == 3 {
        1
    } else if i == 2 || i == 5 {
        13
    } else {
        14
    }
}

/// First corner of a cell of an ellipsoid.
pub open spec fn spec_cell_start(cell: u32) -> u32 {
    (cell / 12 * 13 + cell % 12) as u32
}

/// First corner of a cell of an ellipsoid.
#[verifier::when_used_as_spec(spec_cell_start)]
pub fn cell_start(cell: u32) -> (r: u32)
    requires
        cell < 84,
    ensures
        r == spec_cell_start(cell),
{
    (cell / 12 * 13 + cell % 12) as u32
}

/// Which vertex of a patch an index of it names.
pub open spec fn spec_patch_index(patch: Patch, i: u32) -> u32 {
    match patch {
        Patch::Quad { .. } => quad_index(i),
        Patch::Triangle { .. } => i,
        Patch::Ellipsoid { .. } => (cell_start(i / 6) + cell_step(i % 6)) as u32,
    }
}

/// Which vertex of a patch an index of it names.
#[verifier::when_used_as_spec(spec_patch_index)]
pub fn patch_index(patch: Patch, i: u32) -> (r: u32)
    requires
        i < patch_index_count(patch),
    ensures
        r == spec_patch_index(patch, i),
{
    match patch {
        Patch::Quad { .. } => quad_index(i),
        Patch::Triangle { .. } => i,
        Patch::Ellipsoid { .. } => (cell_start(i / 6) + cell_step(i % 6)) as u32,
    }
}

/// Every index of a patch names one of its vertices.
pub proof fn patches_hold_their_indices(patch: Patch, i: u32)
    requires
        i < patch_index_count(patch),
    ensures
        patch_index(patch, i) < patch_vertex_count(patch),
        patch_index_count(patch) % 3 == 0,
{
}

/// The vertices of a patch.
pub open spec fn patch_vertices(patch: Patch, round: RoundTurns) -> Seq<RenderVertex> {
    Seq::new(patch_vertex_count(patch) as nat, |i: int| patch_vertex(patch, round, i as u32))
}

/// The indices of a patch whose vertices begin at a place.
pub open spec fn patch_indices(patch: Patch, base: int) -> Seq<u32> {
    Seq::new(
        patch_index_count(patch) as nat,
        |i: int| (base + patch_index(patch, i as u32)) as u32,
    )
}

/// Vertices of the first `n` patches together.
pub open spec fn vertex_total(patches: Seq<Patch>, n: int) -> int
    decreases n,
{
    if n <= 0 {
        0
    } else {
        vertex_total(patches, n - 1) + patch_vertex_count(patches[n - 1])
    }
}

/// Counts the vertices of patches together.
pub fn count_vertices(patches: &Vec<Patch>) -> (r: u128)
    ensures
        r == vertex_total(patches@, patches@.len() as int),
{
    let mut r: u128 = 0;
    let mut i: usize = 0;
    while i < patches.len()
        invariant
            i <= patches@.len(),
            r == vertex_total(patches@, i as int),
            r <= 104 * i,
        decreases patches@.len() - i,
    {
        r = r + patch_vertex_count(patches[i]) as u128;
        i = i + 1;
    }
    r
}

/// Vertices followed by those of the first `n` patches.
pub open spec fn surface_vertices(
    first: Seq<RenderVertex>,
    patches: Seq<Patch>,
    round: RoundTurns,
    n: int,
) -> Seq<RenderVertex>
    decreases n,
{
    if n <= 0 {
        first
    } else {
        surface_vertices(first, patches, round, n - 1) + patch_vertices(patches[n - 1], round)
    }
}

/// Indices of `count` vertices followed by those of the first `n` patches.
pub open spec fn surface_indices(
    first: Seq<u32>,
    count: int,
    patches: Seq<Patch>,
    n: int,
) -> Seq<u32>
    decreases n,
{
    if n <= 0 {
        first
    } else {
        surface_indices(first, count, patches, n - 1) + patch_indices(
            patches[n - 1],
            count + vertex_total(patches, n - 1),
        )
    }
}

proof fn lemma_total_grows(patches: Seq<Patch>, n: int, m: int)
    requires
        0 <= n <= m,
    ensures
        0 <= vertex_total(patches, n) <= vertex_total(patches, m),
    decreases m,
{
    if n < m {
        lemma_total_grows(patches, n, m - 1);
    } else if n > 0 {
        lemma_total_grows(patches, n - 1, n - 1);
    }
}

fn append_vertices(out: &mut Vec<RenderVertex>, patch: Patch, round: RoundTurns)
    ensures
        final(out)@ == old(out)@ + patch_vertices(patch, round),
{
    let ghost begun = out@;
    let count: u32 = patch_vertex_count(patch);
    let mut i: u32 = 0;
    while i < count
        invariant
            i <= count == patch_vertex_count(patch),
            out@.len() == begun.len() + i,
            forall|j: int| 0 <= j < begun.len() ==> #[trigger] out@[j] == begun[j],
            forall|j: int|
                begun.len() <= j < out@.len() ==> #[trigger] out@[j] == patch_vertex(
                    patch,
                    round,
                    (j - begun.len()) as u32,
                ),
        decreases count - i,
    {
        out.push(patch_vertex(patch, round, i));
        i = i + 1;
    }
    assert(out@ =~= begun + patch_vertices(patch, round));
}

fn append_indices(out: &mut Vec<u32>, patch: Patch, base: u32)
    requires
        base + patch_vertex_count(patch) <= u32::MAX,
    ensures
        final(out)@ == old(out)@ + patch_indices(patch, base as int),
{
    let ghost begun = out@;
    let count: u32 = patch_index_count(patch);
    let mut i: u32 = 0;
    while i < count
        invariant
            i <= count == patch_index_count(patch),
            base + patch_vertex_count(patch) <= u32::MAX,
            out@.len() == begun.len() + i,
            forall|j: int| 0 <= j < begun.len() ==> #[trigger] out@[j] == begun[j],
            forall|j: int|
                begun.len() <= j < out@.len() ==> #[trigger] out@[j] == (base + patch_index(
                    patch,
                    (j - begun.len()) as u32,
                )) as u32,
        decreases count - i,
    {
        proof {
            patches_hold_their_indices(patch, i);
        }
        out.push(base + patch_index(patch, i));
        i = i + 1;
    }
    assert(out@ =~= begun + patch_indices(patch, base as int));
}

proof fn lemma_surface_length(
    first: Seq<RenderVertex>,
    patches: Seq<Patch>,
    round: RoundTurns,
    n: int,
)
    requires
        n >= 0,
    ensures
        surface_vertices(first, patches, round, n).len() == first.len() + vertex_total(patches, n),
    decreases n,
{
    if n > 0 {
        lemma_surface_length(first, patches, round, n - 1);
    }
}

/// Cuts patches into triangles after the vertices and indices there are.
pub fn append_surfaces(mesh: &mut RenderMesh, patches: &Vec<Patch>, round: RoundTurns)
    requires
        old(mesh).vertices@.len() + vertex_total(patches@, patches@.len() as int) <= u32::MAX,
    ensures
        final(mesh).vertices@ == surface_vertices(
            old(mesh).vertices@,
            patches@,
            round,
            patches@.len() as int,
        ),
        final(mesh).indices@ == surface_indices(
            old(mesh).indices@,
            old(mesh).vertices@.len() as int,
            patches@,
            patches@.len() as int,
        ),
        final(mesh).environment == old(mesh).environment,
        final(mesh).materials == old(mesh).materials,
        final(mesh).lights == old(mesh).lights,
{
    let ghost first = mesh.vertices@;
    let ghost first_indices = mesh.indices@;
    let ghost environment = mesh.environment;
    let ghost materials = mesh.materials;
    let ghost lights = mesh.lights;
    let mut i: usize = 0;
    while i < patches.len()
        invariant
            i <= patches@.len(),
            first.len() + vertex_total(patches@, patches@.len() as int) <= u32::MAX,
            mesh.vertices@ == surface_vertices(first, patches@, round, i as int),
            mesh.indices@ == surface_indices(
                first_indices,
                first.len() as int,
                patches@,
                i as int,
            ),
            mesh.environment == environment,
            mesh.materials == materials,
            mesh.lights == lights,
        decreases patches@.len() - i,
    {
        proof {
            lemma_surface_length(first, patches@, round, i as int);
            lemma_total_grows(patches@, i + 1, patches@.len() as int);
        }
        let base: u32 = mesh.vertices.len() as u32;
        append_vertices(&mut mesh.vertices, patches[i], round);
        append_indices(&mut mesh.indices, patches[i], base);
        i = i + 1;
    }
}

/// A vertex of the labelled roof.
#[derive(Clone, Copy, Debug, PartialEq)]
pub struct RoofVertex {
    /// Position relative to the eave plane.
    pub position: [Single; 3],
    /// Surface normal.
    pub normal: [Single; 3],
    /// Normalized local coordinates within the face.
    pub face_coord: [Single; 2],
    /// Stable identifier of the face.
    pub face_id: u32,
}

/// Labelled roof geometry.
#[derive(Clone, Debug, PartialEq)]
pub struct RoofSurface {
    /// Vertices with face labels.
    pub vertices: Vec<RoofVertex>,
    /// Triangle-list indices.
    pub indices: Vec<u32>,
}

/// A roof vertex as it is drawn.
pub open spec fn spec_roof_vertex(vertex: RoofVertex) -> RenderVertex {
    RenderVertex {
        position: vertex.position,
        normal: vertex.normal,
        face_coord: vertex.face_coord,
        semantic_id: vertex.face_id,
        material: MaterialSlot::Roof,
        appearance: crate::shapes::untinted(),
        pattern: SurfacePattern::inherit(),
    }
}

/// A roof vertex as it is drawn.
#[verifier::when_used_as_spec(spec_roof_vertex)]
pub fn roof_vertex(vertex: RoofVertex) -> (r: RenderVertex)
    ensures
        r == spec_roof_vertex(vertex),
{
    RenderVertex {
        position: vertex.position,
        normal: vertex.normal,
        face_coord: vertex.face_coord,
        semantic_id: vertex.face_id,
        material: MaterialSlot::Roof,
        appearance: crate::shapes::untinted(),
        pattern: SurfacePattern::inherit(),
    }
}

/// A roof vertex as it is drawn on walls of a height.
pub open spec fn spec_raised_roof_vertex(vertex: RoofVertex, wall_height: Single) -> RenderVertex {
    RenderVertex {
        position: [vertex.position[0], vertex.position[1].plus(wall_height), vertex.position[2]],
        normal: vertex.normal,
        face_coord: vertex.face_coord,
        semantic_id: vertex.face_id,
        material: MaterialSlot::Roof,
        appearance: crate::shapes::untinted(),
        pattern: SurfacePattern::inherit(),
    }
}

/// A roof vertex as it is drawn on walls of a height.
#[verifier::when_used_as_spec(spec_raised_roof_vertex)]
pub fn raised_roof_vertex(vertex: RoofVertex, wall_height: Single) -> (r: RenderVertex)
    ensures
        r == spec_raised_roof_vertex(vertex, wall_height),
{
    RenderVertex {
        position: [vertex.position[0], vertex.position[1].plus(wall_height), vertex.position[2]],
        normal: vertex.normal,
        face_coord: vertex.face_coord,
        semantic_id: vertex.face_id,
        material: MaterialSlot::Roof,
        appearance: crate::shapes::untinted(),
        pattern: SurfacePattern::inherit(),
    }
}

/// The vertices of a roof on its own.
pub open spec fn roof_vertices(roof: &RoofSurface) -> Seq<RenderVertex> {
    roof.vertices@.map_values(|vertex: RoofVertex| roof_vertex(vertex))
}

/// The vertices of a roof on walls of a height.
pub open spec fn raised_roof_vertices(
    roof: &RoofSurface,
    wall_height: Single,
) -> Seq<RenderVertex> {
    roof.vertices@.map_values(|vertex: RoofVertex| raised_roof_vertex(vertex, wall_height))
}

fn copy_indices(indices: &Vec<u32>) -> (r: Vec<u32>)
    ensures
        r@ == indices@,
{
    let mut r: Vec<u32> = Vec::new();
    let mut i: usize = 0;
    while i < indices.len()
        invariant
            i <= indices@.len(),
            r@ == indices@.take(i as int),
        decreases indices@.len() - i,
    {
        r.push(indices[i]);
        proof {
            assert(r@ =~= indices@.take(i + 1));
        }
        i = i + 1;
    }
    assert(indices@.take(i as int) =~= indices@);
    r
}

fn copy_lights(lights: &Vec<SceneLight>) -> (r: Vec<SceneLight>)
    ensures
        r@ == lights@,
{
    let mut r: Vec<SceneLight> = Vec::new();
    let mut i: usize = 0;
    while i < lights.len()
        invariant
            i <= lights@.len(),
            r@ == lights@.take(i as int),
        decreases lights@.len() - i,
    {
        r.push(lights[i]);
        proof {
            assert(r@ =~= lights@.take(i + 1));
        }
        i = i + 1;
    }
    assert(lights@.take(i as int) =~= lights@);
    r
}

fn raise_roof(roof: &RoofSurface, wall_height: Single) -> (r: Vec<RenderVertex>)
    ensures
        r@ == raised_roof_vertices(roof, wall_height),
{
    let mut r: Vec<RenderVertex> = Vec::new();
    let mut i: usize = 0;
    while i < roof.vertices.len()
        invariant
            i <= roof.vertices@.len(),
            r@.len() == i,
            forall|j: int|
                0 <= j < i ==> #[trigger] r@[j] == raised_roof_vertex(
                    roof.vertices@[j],
                    wall_height,
                ),
        decreases roof.vertices@.len() - i,
    {
        r.push(raised_roof_vertex(roof.vertices[i], wall_height));
        i = i + 1;
    }
    assert(r@ =~= raised_roof_vertices(roof, wall_height));
    r
}

/// The mesh of a scene around given vertices and indices.
pub open spec fn scene_mesh(
    first: Seq<RenderVertex>,
    first_indices: Seq<u32>,
    patches: Seq<Patch>,
    scene: SceneModel,
    round: RoundTurns,
) -> MeshModel {
    MeshModel {
        vertices: surface_vertices(first, patches, round, patches.len() as int),
        indices: surface_indices(
            first_indices,
            first.len() as int,
            patches,
            patches.len() as int,
        ),
        environment: scene.environment,
        materials: scene.materials,
        lights: scene.lights,
    }
}

/// The mesh of a labelled roof and everything around it.
pub open spec fn target_mesh(
    roof: &RoofSurface,
    scene: SceneModel,
    looks: &SceneLooks,
) -> MeshModel {
    scene_mesh(
        raised_roof_vertices(roof, scene.wall_height_m),
        roof.indices@,
        crate::assembly::context_patches(scene, looks),
        scene,
        looks.round,
    )
}

/// The surfaces of a negative scene.
pub open spec fn ordinary_patches(
    roof: SampledOrdinaryRoof,
    scene: SceneModel,
    looks: &SceneLooks,
) -> Seq<Patch> {
    crate::assembly::ordinary_roof_patches(roof, scene.wall_height_m)
        + crate::assembly::context_patches(scene, looks)
}

/// The mesh of an ordinary roof and everything around it.
pub open spec fn ordinary_mesh(
    roof: SampledOrdinaryRoof,
    scene: SceneModel,
    looks: &SceneLooks,
) -> MeshModel {
    scene_mesh(
        Seq::empty(),
        Seq::empty(),
        ordinary_patches(roof, scene, looks),
        scene,
        looks.round,
    )
}

/// What comes of assembling a scene.
pub open spec fn assembly_outcome(scene: SceneModel, mesh: MeshModel) -> Result<(), RenderError> {
    if !scene.sound() {
        Err(RenderError::InvalidSceneDescription)
    } else {
        mesh.outcome()
    }
}

/// Lists all surfaces of a scene but the primary roof.
pub fn list_context(description: &SceneDescription, looks: &SceneLooks) -> (r: Vec<Patch>)
    requires
        looks.cover(description@),
    ensures
        r@ == crate::assembly::context_patches(description@, looks),
{
    let mut r: Vec<Patch> = Vec::new();
    append_context(&mut r, description, looks);
    assert(r@ =~= crate::assembly::context_patches(description@, looks));
    r
}

/// Lists the surfaces of a negative scene.
pub fn list_ordinary(
    roof: SampledOrdinaryRoof,
    description: &SceneDescription,
    looks: &SceneLooks,
) -> (r: Vec<Patch>)
    requires
        looks.cover(description@),
    ensures
        r@ == ordinary_patches(roof, description@, looks),
{
    let mut r: Vec<Patch> = Vec::new();
    append_ordinary_roof(&mut r, roof, description.wall_height_m);
    append_context(&mut r, description, looks);
    assert(r@ =~= ordinary_patches(roof, description@, looks));
    r
}

impl RenderMesh {
    /// Takes shared roof geometry without changing vertex order, face coordinates, or
    /// stable semantic IDs.
    pub fn from_roof(roof: &RoofSurface) -> (r: RenderMesh)
        ensures
            r.vertices@ == roof_vertices(roof),
            r.indices@ == roof.indices@,
            r.environment == RenderEnvironment::standard(),
            r.materials == MaterialSelection::standard(),
            r.lights@.len() == 0,
    {
        let mut vertices: Vec<RenderVertex> = Vec::new();
        let mut i: usize = 0;
        while i < roof.vertices.len()
            invariant
                i <= roof.vertices@.len(),
                vertices@.len() == i,
                forall|j: int|
                    0 <= j < i ==> #[trigger] vertices@[j] == roof_vertex(roof.vertices@[j]),
            decreases roof.vertices@.len() - i,
        {
            vertices.push(roof_vertex(roof.vertices[i]));
            i = i + 1;
        }
        assert(vertices@ =~= roof_vertices(roof));
        RenderMesh {
            vertices,
            indices: copy_indices(&roof.indices),
            environment: RenderEnvironment::standard(),
            materials: MaterialSelection::standard(),
            lights: Vec::new(),
        }
    }

    /// Bakes a semantic roof and complete procedural context into one aligned draw mesh.
    pub fn from_scene(
        roof: &RoofSurface,
        description: &SceneDescription,
        looks: &SceneLooks,
    ) -> (r: Result<RenderMesh, RenderError>)
        requires
            looks.cover(description@),
            roof.vertices@.len() + vertex_total(
                crate::assembly::context_patches(description@, looks),
                crate::assembly::context_patches(description@, looks).len() as int,
            ) <= u32::MAX,
        ensures
            ({
                let made = target_mesh(roof, description@, looks);
                match assembly_outcome(description@, made) {
                    Ok(()) => r is Ok && r->Ok_0@ == made,
                    Err(error) => r is Err && r->Err_0 == error,
                }
            }),
    {
        match description.validate() {
            Ok(()) => {},
            Err(error) => {
                return Err(error);
            },
        }
        let patches = list_context(description, looks);
        let mut mesh = RenderMesh {
            vertices: raise_roof(roof, description.wall_height_m),
            indices: copy_indices(&roof.indices),
            environment: description.environment,
            materials: description.materials,
            lights: copy_lights(&description.lights),
        };
        append_surfaces(&mut mesh, &patches, looks.round);
        assert(mesh@ == target_mesh(roof, description@, looks));
        match mesh.validate() {
            Ok(()) => Ok(mesh),
            Err(error) => Err(error),
        }
    }

    /// Bakes a complete negative scene whose primary building has a genuine
    /// ordinary roof. All of its vertices use semantic ID zero, so an ordinary
    /// roof can never leak target masks or target geometry labels.
    pub fn from_ordinary_scene(
        roof: SampledOrdinaryRoof,
        description: &SceneDescription,
        looks: &SceneLooks,
    ) -> (r: Result<RenderMesh, RenderError>)
        requires
            looks.cover(description@),
            vertex_total(
                ordinary_patches(roof, description@, looks),
                ordinary_patches(roof, description@, looks).len() as int,
            ) <= u32::MAX,
        ensures
            ({
                let made = ordinary_mesh(roof, description@, looks);
                match assembly_outcome(description@, made) {
                    Ok(()) => r is Ok && r->Ok_0@ == made,
                    Err(error) => r is Err && r->Err_0 == error,
                }
            }),
            r matches Ok(mesh) ==> forall|i: int|
                0 <= i < mesh.vertices@.len() ==> (#[trigger] mesh.vertices@[i]).semantic_id == 0,
    {
        match description.validate() {
            Ok(()) => {},
            Err(error) => {
                return Err(error);
            },
        }
        let patches = list_ordinary(roof, description, looks);
        let mut mesh = RenderMesh {
            vertices: Vec::new(),
            indices: Vec::new(),
            environment: description.environment,
            materials: description.materials,
            lights: copy_lights(&description.lights),
        };
        proof {
            assert(mesh.vertices@ =~= Seq::empty());
            assert(mesh.indices@ =~= Seq::empty());
            lemma_unlabelled(Seq::empty(), patches@, looks.round, patches@.len() as int);
        }
        append_surfaces(&mut mesh, &patches, looks.round);
        assert(mesh@ == ordinary_mesh(roof, description@, looks));
        match mesh.validate() {
            Ok(()) => Ok(mesh),
            Err(error) => Err(error),
        }
    }

    /// Builds a simple complete scene from shared roof geometry, a building
    /// envelope, and a ground plane. Non-roof geometry writes semantic ID zero.
    pub fn roof_building_scene(
        roof: &RoofSurface,
        footprint_width: Single,
        footprint_depth: Single,
        wall_height: Single,
        ground_half_extent: Single,
        looks: &SceneLooks,
    ) -> (r: Result<RenderMesh, RenderError>)
        requires
            ({
                let scene = plain_scene(
                    footprint_width,
                    footprint_depth,
                    wall_height,
                    ground_half_extent,
                );
                let patches = crate::assembly::context_patches(scene, looks);
                &&& looks.cover(scene)
                &&& roof.vertices@.len() + vertex_total(patches, patches.len() as int) <= u32::MAX
            }),
        ensures
            ({
                let scene = plain_scene(
                    footprint_width,
                    footprint_depth,
                    wall_height,
                    ground_half_extent,
                );
                let made = target_mesh(roof, scene, looks);
                match assembly_outcome(scene, made) {
                    Ok(()) => r is Ok && r->Ok_0@ == made,
                    Err(error) => r is Err && r->Err_0 == error,
                }
            }),
    {
        match SceneDescription::contextual(
            footprint_width,
            footprint_depth,
            wall_height,
            ground_half_extent,
            RenderEnvironment::standard(),
        ) {
            Ok(description) => RenderMesh::from_scene(roof, &description, looks),
            Err(error) => Err(error),
        }
    }

    /// Checks the mesh before any GPU resources are allocated.
    pub fn validate(&self) -> (r: Result<(), RenderError>)
        ensures
            r == self@.outcome(),
    {
        if self.vertices.len() == 0 {
            return Err(RenderError::EmptyMesh);
        }
        if self.indices.len() == 0 || self.indices.len() % 3 != 0 {
            return Err(RenderError::InvalidIndexCount(self.indices.len()));
        }
        match find_stray_index(&self.indices, self.vertices.len()) {
            Some(index) => {
                return Err(
                    RenderError::IndexOutOfBounds { index, vertex_count: self.vertices.len() },
                );
            },
            None => {},
        }
        if !vertices_hold(&self.vertices) {
            return Err(RenderError::NonFiniteVertex);
        }
        if self.lights.len() > MAX_LIGHTS || !lights_hold(&self.lights)
            || !self.environment.is_valid() {
            return Err(RenderError::InvalidSceneDescription);
        }
        Ok(())
    }
}

/// The scene of a building in the standard surroundings.
pub open spec fn plain_scene(
    footprint_width: Single,
    footprint_depth: Single,
    wall_height: Single,
    ground_half_extent: Single,
) -> SceneModel {
    crate::scene_context::populated(
        crate::scene_context::bare_scene(
            footprint_width,
            footprint_depth,
            wall_height,
            ground_half_extent,
            RenderEnvironment::standard(),
        ),
    )
}

proof fn lemma_unlabelled(
    first: Seq<RenderVertex>,
    patches: Seq<Patch>,
    round: RoundTurns,
    n: int,
)
    requires
        n >= 0,
    ensures
        surface_vertices(first, patches, round, n).len() == first.len() + vertex_total(patches, n),
        forall|i: int|
            0 <= i < first.len() ==> #[trigger] surface_vertices(first, patches, round, n)[i]
                == first[i],
        forall|i: int|
            first.len() <= i < surface_vertices(first, patches, round, n).len()
                ==> (#[trigger] surface_vertices(first, patches, round, n)[i]).semantic_id == 0,
    decreases n,
{
    if n > 0 {
        lemma_unlabelled(first, patches, round, n - 1);
        let before = surface_vertices(first, patches, round, n - 1);
        let own = patch_vertices(patches[n - 1], round);
        let all = surface_vertices(first, patches, round, n);
        assert forall|i: int| 0 <= i < first.len() implies #[trigger] all[i] == first[i] by {
            lemma_total_grows(patches, 0, n - 1);
            assert(all[i] == before[i]);
        }
        assert forall|i: int| first.len() <= i < all.len() implies (#[trigger] all[i]).semantic_id
            == 0 by {
            if i < before.len() {
                assert(all[i] == before[i]);
            } else {
                assert(all[i] == own[i - before.len()]);
            }
        }
    }
}

/// Everything in a target scene but its roof is unlabelled, and the roof keeps its own
/// labels.
pub proof fn only_the_roof_is_labelled(
    roof: &RoofSurface,
    scene: SceneModel,
    looks: &SceneLooks,
    i: int,
)
    requires
        0 <= i < target_mesh(roof, scene, looks).vertices.len(),
    ensures
        roof.vertices@.len() <= target_mesh(roof, scene, looks).vertices.len(),
        target_mesh(roof, scene, looks).vertices[i].semantic_id == (if i < roof.vertices@.len() {
            roof.vertices@[i].face_id
        } else {
            0
        }),
{
    let patches = crate::assembly::context_patches(scene, looks);
    let first = raised_roof_vertices(roof, scene.wall_height_m);
    lemma_unlabelled(first, patches, looks.round, patches.len() as int);
    lemma_total_grows(patches, 0, patches.len() as int);
    if i < first.len() {
        assert(target_mesh(roof, scene, looks).vertices[i] == first[i]);
    }
}

/// No vertex of a negative scene is labelled.
pub proof fn ordinary_scenes_are_unlabelled(
    roof: SampledOrdinaryRoof,
    scene: SceneModel,
    looks: &SceneLooks,
    i: int,
)
    requires
        0 <= i < ordinary_mesh(roof, scene, looks).vertices.len(),
    ensures
        ordinary_mesh(roof, scene, looks).vertices[i].semantic_id == 0,
{
    let patches = ordinary_patches(roof, scene, looks);
    lemma_unlabelled(Seq::empty(), patches, looks.round, patches.len() as int);
}

proof fn lemma_indices_in_range(first: Seq<u32>, count: int, patches: Seq<Patch>, n: int)
    requires
        n >= 0,
        count >= 0,
        count + vertex_total(patches, n) <= u32::MAX,
        first.len() % 3 == 0,
        forall|k: int| 0 <= k < first.len() ==> #[trigger] first[k] < count,
    ensures
        surface_indices(first, count, patches, n).len() % 3 == 0,
        forall|k: int|
            0 <= k < surface_indices(first, count, patches, n).len()
                ==> #[trigger] surface_indices(first, count, patches, n)[k] < count + vertex_total(
                patches,
                n,
            ),
    decreases n,
{
    if n > 0 {
        let patch = patches[n - 1];
        lemma_indices_in_range(first, count, patches, n - 1);
        let before = surface_indices(first, count, patches, n - 1);
        let base = count + vertex_total(patches, n - 1);
        lemma_total_grows(patches, 0, n - 1);
        let own = patch_indices(patch, base);
        let all = surface_indices(first, count, patches, n);
        assert(own.len() % 3 == 0);
        assert forall|k: int| 0 <= k < all.len() implies #[trigger] all[k] < base
            + patch_vertex_count(patch) by {
            if k < before.len() {
                assert(all[k] == before[k]);
            } else {
                let i = (k - before.len()) as u32;
                patches_hold_their_indices(patch, i);
                assert(all[k] == own[k - before.len()]);
            }
        }
    }
}

proof fn lemma_no_stray(indices: Seq<u32>, vertex_count: int, n: int)
    requires
        0 <= n <= indices.len(),
        forall|k: int| 0 <= k < indices.len() ==> #[trigger] indices[k] < vertex_count,
    ensures
        stray_index(indices, vertex_count, n) is None,
    decreases n,
{
    if n > 0 {
        lemma_no_stray(indices, vertex_count, n - 1);
    }
}

/// Cutting patches into triangles never leaves an index without its vertex, nor an index
/// list that is no triangle list, where the geometry before it left none.
pub proof fn assembled_indices_are_sound(
    first: Seq<RenderVertex>,
    first_indices: Seq<u32>,
    patches: Seq<Patch>,
    scene: SceneModel,
    round: RoundTurns,
)
    requires
        first.len() + vertex_total(patches, patches.len() as int) <= u32::MAX,
        first_indices.len() % 3 == 0,
        forall|k: int| 0 <= k < first_indices.len() ==> #[trigger] first_indices[k] < first.len(),
    ensures
        ({
            let mesh = scene_mesh(first, first_indices, patches, scene, round);
            &&& mesh.indices.len() % 3 == 0
            &&& stray_index(
                mesh.indices,
                mesh.vertices.len() as int,
                mesh.indices.len() as int,
            ) is None
        }),
{
    let n = patches.len() as int;
    let mesh = scene_mesh(first, first_indices, patches, scene, round);
    lemma_surface_length(first, patches, round, n);
    lemma_indices_in_range(first_indices, first.len() as int, patches, n);
    lemma_no_stray(mesh.indices, mesh.vertices.len() as int, mesh.indices.len() as int);
}

/// The labelled roof stands on the walls: every vertex keeps its place over the ground, is
/// the wall height above its height in the roof's own coordinates, to the nearest number that
/// can be held, and keeps its direction, its place on its face and its label. Its triangles
/// come first, and a vertex of the eave, at no height of its own, is at the top of the wall.
pub proof fn roofs_stand_on_their_walls(
    roof: &RoofSurface,
    scene: SceneModel,
    looks: &SceneLooks,
    i: int,
)
    requires
        0 <= i < roof.vertices@.len(),
        roof.vertices@[i].position[1].is_finite(),
        scene.wall_height_m.is_finite(),
    ensures
        ({
            let mesh = target_mesh(roof, scene, looks);
            let own = roof.vertices@[i];
            let drawn = mesh.vertices[i];
            let (height, walls) = (own.position[1].value(), scene.wall_height_m.value());
            &&& mesh.vertices.len() >= roof.vertices@.len()
            &&& drawn.position[0] == own.position[0]
            &&& drawn.position[2] == own.position[2]
            &&& crate::rounding::rounds(drawn.position[1], height + walls, 1)
            &&& height == 0 ==> drawn.position[1].equals(scene.wall_height_m)
            &&& height >= 0 ==> scene.wall_height_m.at_most(drawn.position[1])
            &&& drawn.normal == own.normal
            &&& drawn.face_coord == own.face_coord
            &&& drawn.semantic_id == own.face_id
            &&& drawn.material == MaterialSlot::Roof
            &&& mesh.indices.len() >= roof.indices@.len()
            &&& mesh.indices.take(roof.indices@.len() as int) == roof.indices@
        }),
{
    let patches = crate::assembly::context_patches(scene, looks);
    let n = patches.len() as int;
    let first = raised_roof_vertices(roof, scene.wall_height_m);
    let own = roof.vertices@[i];
    lemma_unlabelled(first, patches, looks.round, n);
    lemma_total_grows(patches, 0, n);
    lemma_indices_begin(roof.indices@, first.len() as int, patches, n);
    let drawn = target_mesh(roof, scene, looks).vertices[i];
    assert(drawn == first[i]);
    assert(drawn == raised_roof_vertex(own, scene.wall_height_m));
    crate::rounding::sums_round(own.position[1], scene.wall_height_m);
    let walls = scene.wall_height_m;
    let (height, top) = (own.position[1].value(), drawn.position[1]);
    crate::rounding::sums_round(Single::zero(), walls);
    crate::rounding::one_is_one();
    crate::rounding::neutral_operands(walls, Single::zero());
    if height == 0 {
        crate::rounding::exact_results_are_kept(top, walls.value(), 1, walls);
    }
    if height >= 0 {
        crate::rounding::results_keep_order(
            Single::zero().plus(walls),
            top,
            walls.value(),
            height + walls.value(),
            1,
        );
        crate::rounding::exact_results_are_kept(
            Single::zero().plus(walls),
            walls.value(),
            1,
            walls,
        );
    }
}

proof fn lemma_indices_begin(first: Seq<u32>, count: int, patches: Seq<Patch>, n: int)
    requires
        n >= 0,
    ensures
        surface_indices(first, count, patches, n).len() >= first.len(),
        surface_indices(first, count, patches, n).take(first.len() as int) == first,
    decreases n,
{
    if n > 0 {
        lemma_indices_begin(first, count, patches, n - 1);
        let before = surface_indices(first, count, patches, n - 1);
        let all = surface_indices(first, count, patches, n);
        assert(all.take(first.len() as int) =~= before.take(first.len() as int));
    } else {
        assert(first.take(first.len() as int) =~= first);
    }
}

/// A roof on its own is drawn where it is, with its labels.
pub proof fn roofs_alone_keep_their_vertices(roof: &RoofSurface, i: int)
    requires
        0 <= i < roof.vertices@.len(),
    ensures
        roof_vertices(roof).len() == roof.vertices@.len(),
        roof_vertices(roof)[i].position == roof.vertices@[i].position,
        roof_vertices(roof)[i].normal == roof.vertices@[i].normal,
        roof_vertices(roof)[i].face_coord == roof.vertices@[i].face_coord,
        roof_vertices(roof)[i].semantic_id == roof.vertices@[i].face_id,
        roof_vertices(roof)[i].material == MaterialSlot::Roof,
{
}

/// A scene's mesh is lit, textured and surrounded as the scene says.
pub proof fn meshes_keep_their_surroundings(
    target: &RoofSurface,
    ordinary: SampledOrdinaryRoof,
    scene: SceneModel,
    looks: &SceneLooks,
)
    ensures
        target_mesh(target, scene, looks).environment == scene.environment,
        target_mesh(target, scene, looks).materials == scene.materials,
        target_mesh(target, scene, looks).lights == scene.lights,
        ordinary_mesh(ordinary, scene, looks).environment == scene.environment,
        ordinary_mesh(ordinary, scene, looks).materials == scene.materials,
        ordinary_mesh(ordinary, scene, looks).lights == scene.lights,
{
}

proof fn lemma_places(
    first: Seq<RenderVertex>,
    first_indices: Seq<u32>,
    patches: Seq<Patch>,
    round: RoundTurns,
    n: int,
    k: int,
)
    requires
        0 <= k < n <= patches.len(),
    ensures
        ({
            let vertices = surface_vertices(first, patches, round, n);
            let indices = surface_indices(first_indices, first.len() as int, patches, n);
            let base = first.len() + vertex_total(patches, k);
            let own = patch_vertices(patches[k], round);
            let places = patch_indices(patches[k], base as int);
            &&& base + own.len() <= vertices.len()
            &&& vertices.subrange(base as int, base + own.len()) == own
            &&& exists|at: int|
                0 <= at && at + places.len() <= indices.len() && #[trigger] indices.subrange(
                    at,
                    at + places.len(),
                ) == places
        }),
    decreases n,
{
    let vertices = surface_vertices(first, patches, round, n);
    let indices = surface_indices(first_indices, first.len() as int, patches, n);
    let base = first.len() + vertex_total(patches, k);
    let own = patch_vertices(patches[k], round);
    let places = patch_indices(patches[k], base as int);
    let shorter = surface_vertices(first, patches, round, n - 1);
    let fewer = surface_indices(first_indices, first.len() as int, patches, n - 1);
    lemma_surface_length(first, patches, round, n - 1);
    lemma_total_grows(patches, 0, k);
    if k == n - 1 {
        assert(vertices.subrange(base as int, base + own.len()) =~= own);
        let at = fewer.len() as int;
        assert(indices.subrange(at, at + places.len()) =~= places);
    } else {
        lemma_places(first, first_indices, patches, round, n - 1, k);
        assert(vertices.subrange(base as int, base + own.len()) =~= shorter.subrange(
            base as int,
            base + own.len(),
        ));
        let at = choose|at: int|
            0 <= at && at + places.len() <= fewer.len() && #[trigger] fewer.subrange(
                at,
                at + places.len(),
            ) == places;
        assert(indices.subrange(at, at + places.len()) =~= fewer.subrange(
            at,
            at + places.len(),
        ));
    }
}

/// No surface is lost: each is drawn by vertices of its own, in a row, and by triangles that
/// join just those.
pub proof fn every_surface_is_drawn(
    first: Seq<RenderVertex>,
    first_indices: Seq<u32>,
    patches: Seq<Patch>,
    scene: SceneModel,
    round: RoundTurns,
    k: int,
)
    requires
        0 <= k < patches.len(),
    ensures
        ({
            let mesh = scene_mesh(first, first_indices, patches, scene, round);
            let own = patch_vertices(patches[k], round);
            exists|base: int, at: int|
                {
                    &&& 0 <= base && base + own.len() <= mesh.vertices.len()
                    &&& #[trigger] mesh.vertices.subrange(base, base + own.len()) == own
                    &&& 0 <= at && at + patch_index_count(patches[k]) <= mesh.indices.len()
                    &&& #[trigger] mesh.indices.subrange(
                        at,
                        at + patch_index_count(patches[k]),
                    ) == patch_indices(patches[k], base)
                }
        }),
{
    let n = patches.len() as int;
    lemma_places(first, first_indices, patches, round, n, k);
    let mesh = scene_mesh(first, first_indices, patches, scene, round);
    let own = patch_vertices(patches[k], round);
    let base = first.len() + vertex_total(patches, k);
    lemma_total_grows(patches, 0, k);
    let places = patch_indices(patches[k], base as int);
    let at = choose|at: int|
        0 <= at && at + places.len() <= mesh.indices.len() && #[trigger] mesh.indices.subrange(
            at,
            at + places.len(),
        ) == places;
    assert(mesh.vertices.subrange(base as int, base + own.len()) == own);
    assert(mesh.indices.subrange(at, at + patch_index_count(patches[k])) == places);
}

/// A quad is drawn by its four corners, in their order and with one look, and by two
/// triangles that turn the same way and meet along the diagonal from the first corner to the
/// third.
pub proof fn quads_are_two_triangles(
    corners: [[Single; 3]; 4],
    material: MaterialSlot,
    appearance: [Single; 4],
    pattern: SurfacePattern,
    round: RoundTurns,
    i: u32,
)
    requires
        i < 4,
    ensures
        ({
            let patch = Patch::Quad { corners, material, appearance, pattern };
            let own = patch_vertices(patch, round);
            &&& own.len() == 4
            &&& own[i as int].position == corners[i as int]
            &&& own[i as int].material == material
            &&& own[i as int].appearance == appearance
            &&& own[i as int].pattern == pattern
            &&& own[i as int].normal == own[0].normal
            &&& own[0].face_coord == [Single::zero(), Single::zero()]
            &&& own[1].face_coord == [Single::one(), Single::zero()]
            &&& own[2].face_coord == [Single::one(), Single::one()]
            &&& own[3].face_coord == [Single::zero(), Single::one()]
            &&& patch_indices(patch, 0) == seq![0u32, 1, 2, 0, 2, 3]
        }),
{
    let patch = Patch::Quad { corners, material, appearance, pattern };
    assert(patch_indices(patch, 0) =~= seq![0u32, 1, 2, 0, 2, 3]);
}

/// A triangle is drawn by its three corners, in their order.
pub proof fn triangles_keep_their_corners(
    corners: [[Single; 3]; 3],
    material: MaterialSlot,
    round: RoundTurns,
    i: u32,
)
    requires
        i < 3,
    ensures
        ({
            let patch = Patch::Triangle { corners, material };
            let own = patch_vertices(patch, round);
            &&& own.len() == 3
            &&& own[i as int].position == corners[i as int]
            &&& own[i as int].material == material
            &&& own[i as int].normal == own[0].normal
            &&& patch_indices(patch, 0) == seq![0u32, 1, 2]
        }),
{
    let patch = Patch::Triangle { corners, material };
    assert(patch_indices(patch, 0) =~= seq![0u32, 1, 2]);
}

/// An ellipsoid is a grid of seven by twelve cells between eight rings of thirteen vertices,
/// and each cell is two triangles between four neighbours: the upper three and the lower
/// three, the same way round.
pub proof fn ellipsoid_cells_join_neighbours(
    center: [Single; 3],
    radii: [Single; 3],
    material: MaterialSlot,
    appearance: [Single; 4],
    ring: u32,
    segment: u32,
)
    requires
        ring < 7,
        segment < 12,
    ensures
        ({
            let patch = Patch::Ellipsoid { center, radii, material, appearance };
            let here = (ring * 13 + segment) as int;
            let at = 6 * (ring * 12 + segment) as int;
            let places = patch_indices(patch, 0);
            &&& patch_vertex_count(patch) == 8 * 13
            &&& places.len() == 7 * 12 * 6
            &&& places[at] == here && places[at + 1] == here + 1 && places[at + 2] == here + 13
            &&& places[at + 3] == here + 1 && places[at + 4] == here + 14 && places[at + 5] == here
                + 13
        }),
{
    let patch = Patch::Ellipsoid { center, radii, material, appearance };
    let cell = (ring * 12 + segment) as u32;
    let at = 6 * (ring * 12 + segment) as int;
    assert(cell / 12 == ring && cell % 12 == segment);
    assert forall|k: int| 0 <= k < 6 implies ((at + k) as u32) / 6 == cell && #[trigger] ((at
        + k) as u32) % 6 == k by {}
    assert(((at + 0) as u32) % 6 == 0);
    assert(((at + 1) as u32) % 6 == 1);
    assert(((at + 2) as u32) % 6 == 2);
    assert(((at + 3) as u32) % 6 == 3);
    assert(((at + 4) as u32) % 6 == 4);
    assert(((at + 5) as u32) % 6 == 5);
}

} // verus!
