//! Octant arithmetic for the AABB octree. An internal node splits its box
//! into eight equal octants; the octant index packs the three "above the
//! midpoint" tests into bits, x lowest, then y, then z. The ordered traversal
//! starts in the octant holding the ray's entry point and steps to the next
//! octant by flipping the bit of the midplane it crosses.

use vstd::prelude::*;

verus! {

/// A node with this many candidate triangles or fewer becomes a leaf.
pub const MAX_LEAF_TRIANGLES: usize = 30;

/// Nodes at this depth never subdivide further.
pub const MAX_OCTREE_DEPTH: u32 = 8;

/// Whether construction subdivides a node into eight octants: only while
/// the depth cap is not reached and too many triangles remain for a leaf.
pub fn octree_should_split(depth: u32, num_triangles: usize) -> (r: bool)
    ensures
        r == (depth < MAX_OCTREE_DEPTH && num_triangles >= MAX_LEAF_TRIANGLES),
{
    depth < MAX_OCTREE_DEPTH && num_triangles >= MAX_LEAF_TRIANGLES
}

/// The octant index of a point relative to a box midpoint, from the three
/// componentwise "at or above the midpoint" tests.
pub open spec fn spec_octant_index(x_pos: bool, y_pos: bool, z_pos: bool) -> int {
    (if x_pos {
        1int
    } else {
        0int
    }) + (if y_pos {
        2int
    } else {
        0int
    }) + (if z_pos {
        4int
    } else {
        0int
    })
}

/// Pack the three sign tests into an octant index below 8.
pub fn octant_index(x_pos: bool, y_pos: bool, z_pos: bool) -> (r: u32)
    ensures
        r == spec_octant_index(x_pos, y_pos, z_pos),
        r < 8,
{
    let mut v: u32 = 0;
    if x_pos {
        v = 1;
    }
    if y_pos {
        v = v + 2;
    }
    if z_pos {
        v = v + 4;
    }
    v
}

/// The three axis bits of an octant index: whether the octant lies on the
/// upper side of the x, y and z midplanes. Inverse of `octant_index`.
pub fn octant_offsets(idx: u32) -> (r: (bool, bool, bool))
    requires
        idx < 8,
    ensures
        idx == spec_octant_index(r.0, r.1, r.2),
{
    let x_pos = idx & 1 != 0;
    let y_pos = idx & 2 != 0;
    let z_pos = idx & 4 != 0;
    proof {
        assert(idx == (if idx & 1 != 0 {
            1int
        } else {
            0int
        }) + (if idx & 2 != 0 {
            2int
        } else {
            0int
        }) + (if idx & 4 != 0 {
            4int
        } else {
            0int
        })) by (bit_vector)
            requires
                idx < 8,
        ;
    }
    (x_pos, y_pos, z_pos)
}

/// Step across the midplane of the given axis (0 for x, 1 for y, 2 for z):
/// the neighbouring octant differs exactly in that axis bit.
pub fn octant_flip(idx: u32, axis: u32) -> (r: u32)
    requires
        idx < 8,
        axis < 3,
    ensures
        r == idx ^ (1u32 << axis),
        r < 8,
        r != idx,
{
    proof {
        assert((idx ^ (1u32 << axis)) < 8 && (idx ^ (1u32 << axis)) != idx) by (bit_vector)
            requires
                idx < 8,
                axis < 3,
        ;
    }
    idx ^ (1u32 << axis)
}

/// A straight ray crosses each of the three midplanes of a node at most
/// once, so the ordered walk flips each axis bit at most once. The four
/// octants such a walk can visit are pairwise distinct, which is why
/// visiting four children always suffices.
pub proof fn lemma_octant_walk_distinct(idx: u32, a1: u32, a2: u32, a3: u32)
    requires
        idx < 8,
        a1 < 3,
        a2 < 3,
        a3 < 3,
        a1 != a2,
        a1 != a3,
        a2 != a3,
    ensures
        ({
            let i1 = idx ^ (1u32 << a1);
            let i2 = i1 ^ (1u32 << a2);
            let i3 = i2 ^ (1u32 << a3);
            &&& i1 < 8
            &&& i2 < 8
            &&& i3 < 8
            &&& idx != i1
            &&& idx != i2
            &&& idx != i3
            &&& i1 != i2
            &&& i1 != i3
            &&& i2 != i3
        }),
{
    assert(({
        let i1 = idx ^ (1u32 << a1);
        let i2 = i1 ^ (1u32 << a2);
        let i3 = i2 ^ (1u32 << a3);
        &&& i1 < 8
        &&& i2 < 8
        &&& i3 < 8
        &&& idx != i1
        &&& idx != i2
        &&& idx != i3
        &&& i1 != i2
        &&& i1 != i3
        &&& i2 != i3
    })) by (bit_vector)
        requires
            idx < 8,
            a1 < 3,
            a2 < 3,
            a3 < 3,
            a1 != a2,
            a1 != a3,
            a2 != a3,
    ;
}

} // verus!
