//! Index topology for the annulus meshes.
//!
//! The ring vertex layout (see `vertex_generator`) holds 364 vertices: a seam
//! pair at the start, 180 pairs at the odd degrees, and a seam pair at the
//! end. The index buffer stitches consecutive pairs into quads of two
//! triangles each: 181 quads, 1086 indices. The same buffer is shared by
//! every ring-shaped mesh; the partial (dashed) variant emits only the quads
//! on which a toggling angular predicate is on.

use vstd::prelude::*;

verus! {

/// Number of quads in the full ring topology: one seam quad plus one quad per
/// two-degree segment.
pub const RING_QUADS: u16 = 181;

/// The six indices of ring quad `q`, two triangles. Quad 0 stitches the seam
/// pair to the first odd-degree pair; quad `q >= 1` stitches the pairs at
/// vertex slots `2 * q` and `2 * q + 2`.
pub open spec fn quad_indices(q: int) -> Seq<u16> {
    if q == 0 {
        seq![0u16, 1u16, 2u16, 0u16, 2u16, 3u16]
    } else {
        seq![
            (2 * q + 1) as u16,
            (2 * q) as u16,
            (2 * q + 2) as u16,
            (2 * q + 1) as u16,
            (2 * q + 2) as u16,
            (2 * q + 3) as u16,
        ]
    }
}

/// The indices of the first `n` quads of the full ring topology, in emission
/// order.
pub open spec fn ring_index_prefix(n: int) -> Seq<u16>
    decreases n,
{
    if n <= 0 {
        Seq::empty()
    } else {
        ring_index_prefix(n - 1) + quad_indices(n - 1)
    }
}

/// The complete shared ring index buffer.
pub open spec fn ring_indices() -> Seq<u16> {
    ring_index_prefix(RING_QUADS as int)
}

/// Each quad contributes six indices.
pub proof fn lemma_ring_index_prefix_len(n: int)
    requires
        0 <= n,
    ensures
        ring_index_prefix(n).len() == 6 * n,
    decreases n,
{
    if n > 0 {
        lemma_ring_index_prefix_len(n - 1);
    }
}

/// Builds the shared index buffer for the ring topology: 181 quads, 1086
/// indices, reused by every ring-shaped mesh of matching vertex count.
pub fn generate_ring() -> (indices: Vec<u16>)
    ensures
        indices@ == ring_indices(),
        indices@.len() == 1086,
{
    let mut indices: Vec<u16> = Vec::new();

    indices.push(0);
    indices.push(1);
    indices.push(2);
    indices.push(0);
    indices.push(2);
    indices.push(3);
    proof {
        assert(ring_index_prefix(0) == Seq::<u16>::empty());
        assert(indices@ =~= ring_index_prefix(1));
    }

    let mut i: u16 = 2;
    while i < 362
        invariant
            2 <= i <= 362,
            i % 2 == 0,
            indices@ == ring_index_prefix(i as int / 2),
        decreases 362 - i,
    {
        indices.push(i + 1);
        indices.push(i);
        indices.push(i + 2);
        indices.push(i + 1);
        indices.push(i + 2);
        indices.push(i + 3);
        proof {
            assert(indices@ =~= ring_index_prefix(i as int / 2 + 1));
        }
        i += 2;
    }

    proof {
        lemma_ring_index_prefix_len(RING_QUADS as int);
    }
    indices
}

/// Whether the dashed pattern is on at quad `q`: the predicate toggles every
/// 20 degrees of the 360-degree sweep, and quad `q` starts at degree `2 * q`.
pub open spec fn dash_on(q: int) -> bool {
    ((2 * q) / 20) % 2 == 0
}

/// The indices of the first `n` quads of the dashed ring topology: the quads
/// of the full topology, kept only where the dash predicate is on.
pub open spec fn partial_ring_index_prefix(n: int) -> Seq<u16>
    decreases n,
{
    if n <= 0 {
        Seq::empty()
    } else if dash_on(n - 1) {
        partial_ring_index_prefix(n - 1) + quad_indices(n - 1)
    } else {
        partial_ring_index_prefix(n - 1)
    }
}

/// The complete dashed ring index buffer.
pub open spec fn partial_ring_indices() -> Seq<u16> {
    partial_ring_index_prefix(RING_QUADS as int)
}

/// Builds the dashed index buffer: the same annulus vertex layout, with the
/// quads gated by the toggling predicate, producing an alternating dashed
/// appearance. No new vertex geometry is required.
pub fn generate_partial_ring() -> (indices: Vec<u16>)
    ensures
        indices@ == partial_ring_indices(),
{
    let mut indices: Vec<u16> = Vec::new();

    let mut q: u16 = 0;
    while q < RING_QUADS
        invariant
            q <= RING_QUADS,
            indices@ == partial_ring_index_prefix(q as int),
        decreases RING_QUADS - q,
    {
        if (2 * q / 20) % 2 == 0 {
            if q == 0 {
                indices.push(0);
                indices.push(1);
                indices.push(2);
                indices.push(0);
                indices.push(2);
                indices.push(3);
            } else {
                let i: u16 = 2 * q;
                indices.push(i + 1);
                indices.push(i);
                indices.push(i + 2);
                indices.push(i + 1);
                indices.push(i + 2);
                indices.push(i + 3);
            }
            proof {
                assert(indices@ =~= partial_ring_index_prefix(q as int + 1));
            }
        }
        q += 1;
    }

    indices
}

} // verus!
