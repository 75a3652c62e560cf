//! Pieces of surface before they are cut into triangles.

use crate::single::Single;
use crate::surface::{MaterialSlot, SurfacePattern};
use vstd::prelude::*;

verus! {

/// A piece of surface before it is cut into triangles.
#[derive(Clone, Copy, Debug, PartialEq)]
pub enum Patch {
    /// Four corners in order around the outside.
    Quad {
        /// World-space corners.
        corners: [[Single; 3]; 4],
        /// Appearance material.
        material: MaterialSlot,
        /// RGB tint and material-specific control.
        appearance: [Single; 4],
        /// Procedural treatment.
        pattern: SurfacePattern,
    },
    /// Three corners in order around the outside.
    Triangle {
        /// World-space corners.
        corners: [[Single; 3]; 3],
        /// Appearance material.
        material: MaterialSlot,
    },
    /// A rounded mass.
    Ellipsoid {
        /// World-space centre.
        center: [Single; 3],
        /// Extent along each axis.
        radii: [Single; 3],
        /// Appearance material.
        material: MaterialSlot,
        /// RGB tint and material-specific control.
        appearance: [Single; 4],
    },
}

/// Lists joined one after another may be grouped in any way.
pub broadcast proof fn concat_associates(a: Seq<Patch>, b: Seq<Patch>, c: Seq<Patch>)
    ensures
        #[trigger] ((a + b) + c) == a + (b + c),
{
    assert((a + b) + c =~= a + (b + c));
}

/// Joining nothing changes nothing.
pub broadcast proof fn concat_nothing(a: Seq<Patch>)
    ensures
        #[trigger] (a + Seq::<Patch>::empty()) == a,
{
    assert(a + Seq::<Patch>::empty() =~= a);
}

/// Facts about lists of patches that are joined one after another.
pub broadcast group group_concat {
    concat_associates,
    concat_nothing,
}

/// Adds a patch.
pub fn append_patch(out: &mut Vec<Patch>, patch: Patch)
    ensures
        final(out)@ == old(out)@ + seq![patch],
{
    out.push(patch);
    assert(out@ =~= old(out)@ + seq![patch]);
}

} // verus!
