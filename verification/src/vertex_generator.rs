//! Procedural vertex geometry for the HUD shapes: filled circle, flat ring,
//! and glow ring.
//!
//! Angles are integer degrees; their sines and cosines are supplied as a
//! validated fixed-point table (`TrigTable`), sampled once per degree over a
//! full turn. Positions are fixed-point micro-unit scalars: for a sample at
//! `deg` degrees and radius `r`, `x = sin(deg) * r` and
//! `y = cos(deg) * r * aspect_ratio`, each product truncated back to the
//! micro-unit scale, so the first sample of a shape lies on the positive
//! y-axis. The y-axis is scaled by the aspect ratio to compensate for
//! non-square viewports.

use vstd::prelude::*;

verus! {

use crate::fixed::FX_LIMIT;
use crate::fixed::MICRO;
use crate::fixed::fixed_mul;
use crate::fixed::fx_mul;
use crate::fixed::lemma_fx_mul_mag;

/// Largest radius or time-offset magnitude the generators accept, so that
/// every intermediate fixed-point product stays within `i64`.
pub const RADIUS_LIMIT: i64 = 1_000_000_000;

/// Largest aspect-ratio magnitude the generators accept.
pub const ASPECT_LIMIT: i64 = 100_000_000;

/// An RGBA color in micro-units: one whole unit is full intensity. Channels
/// may exceed one unit or drop below zero; the generators never clamp.
#[derive(Clone, Copy, Debug, PartialEq, Eq, Structural)]
pub struct Color {
    pub red: i64,
    pub green: i64,
    pub blue: i64,
    pub alpha: i64,
}

/// A mesh vertex: a position in micro-units (z is fixed at one unit) and an
/// RGBA color.
#[derive(Clone, Copy, Debug, PartialEq, Eq, Structural)]
pub struct Vertex {
    pub x: i64,
    pub y: i64,
    pub z: i64,
    pub color: Color,
}

/// Whether a pair of cosine and sine columns forms a valid table: one entry
/// per degree from 0 to 360 inclusive, every entry within one unit in
/// magnitude, and the entries at 360 degrees equal to those at 0 degrees, so
/// that meshes sampled over a full turn close exactly.
pub open spec fn tables_ok(cosines: Seq<i64>, sines: Seq<i64>) -> bool {
    &&& cosines.len() == 361
    &&& sines.len() == 361
    &&& (forall|i: int| 0 <= i < 361 ==> -MICRO <= #[trigger] cosines[i] <= MICRO)
    &&& (forall|i: int| 0 <= i < 361 ==> -MICRO <= #[trigger] sines[i] <= MICRO)
    &&& cosines[360] == cosines[0]
    &&& sines[360] == sines[0]
}

/// Fixed-point cosine and sine samples at each integer degree from 0 to 360.
pub struct TrigTable {
    pub cosines: Vec<i64>,
    pub sines: Vec<i64>,
}

impl TrigTable {
    /// Well-formedness of the table; every generator requires it.
    pub open spec fn wf(self) -> bool {
        tables_ok(self.cosines@, self.sines@)
    }

    /// Validates a pair of sample columns; returns the table exactly when the
    /// columns have 361 entries each, bounded by one unit in magnitude, with
    /// the 360-degree entries equal to the 0-degree entries.
    pub fn new(cosines: Vec<i64>, sines: Vec<i64>) -> (t: Option<TrigTable>)
        ensures
            t is Some <==> tables_ok(cosines@, sines@),
            t is Some ==> t.unwrap() == (TrigTable { cosines, sines }),
            t is Some ==> t.unwrap().wf(),
    {
        if cosines.len() != 361 || sines.len() != 361 {
            return None;
        }
        let mut i: usize = 0;
        while i < 361
            invariant
                i <= 361,
                cosines@.len() == 361,
                sines@.len() == 361,
                forall|j: int| 0 <= j < i ==> -MICRO <= #[trigger] cosines@[j] <= MICRO,
                forall|j: int| 0 <= j < i ==> -MICRO <= #[trigger] sines@[j] <= MICRO,
            decreases 361 - i,
        {
            let c = cosines[i];
            let s = sines[i];
            if c < -MICRO || c > MICRO || s < -MICRO || s > MICRO {
                return None;
            }
            i += 1;
        }
        if cosines[360] != cosines[0] || sines[360] != sines[0] {
            return None;
        }
        Some(TrigTable { cosines, sines })
    }
}

/// The x coordinate of the rim sample at `deg` degrees and the given radius.
pub open spec fn rim_x(tab: TrigTable, deg: int, radius: int) -> int {
    fx_mul(tab.sines@[deg] as int, radius)
}

/// The y coordinate of the rim sample at `deg` degrees: the cosine scaled by
/// the radius and then by the aspect ratio.
pub open spec fn rim_y(tab: TrigTable, deg: int, radius: int, aspect_ratio: int) -> int {
    fx_mul(fx_mul(tab.cosines@[deg] as int, radius), aspect_ratio)
}

/// The full rim vertex at `deg` degrees.
pub open spec fn rim_vertex(
    tab: TrigTable,
    deg: int,
    radius: int,
    aspect_ratio: int,
    color: Color,
) -> Vertex {
    Vertex {
        x: rim_x(tab, deg, radius) as i64,
        y: rim_y(tab, deg, radius, aspect_ratio) as i64,
        z: MICRO,
        color,
    }
}

/// Computes one rim vertex.
fn rim_point(tab: &TrigTable, deg: usize, radius: i64, aspect_ratio: i64, color: Color) -> (v:
    Vertex)
    requires
        tab.wf(),
        deg < 361,
        -RADIUS_LIMIT <= radius <= RADIUS_LIMIT,
        -ASPECT_LIMIT <= aspect_ratio <= ASPECT_LIMIT,
    ensures
        v == rim_vertex(*tab, deg as int, radius as int, aspect_ratio as int, color),
{
    let s = tab.sines[deg];
    let c = tab.cosines[deg];
    let x = fixed_mul(s, radius);
    let scaled = fixed_mul(c, radius);
    proof {
        lemma_fx_mul_mag(c as int, radius as int, MICRO as int, RADIUS_LIMIT as int);
    }
    let y = fixed_mul(scaled, aspect_ratio);
    Vertex { x, y, z: MICRO, color }
}

/// The `k`-th vertex of the circle fan: the center first, then one perimeter
/// sample per degree from 0 to 360 inclusive.
pub open spec fn circle_vertex(
    tab: TrigTable,
    aspect_ratio: int,
    radius: int,
    color: Color,
    k: int,
) -> Vertex {
    if k == 0 {
        Vertex { x: 0, y: 0, z: MICRO, color }
    } else {
        rim_vertex(tab, k - 1, radius, aspect_ratio, color)
    }
}

/// The vertex sequence of the circle fan: 362 vertices, center included.
pub open spec fn circle_vertices(
    tab: TrigTable,
    aspect_ratio: int,
    radius: int,
    color: Color,
) -> Seq<Vertex> {
    Seq::new(362, |k: int| circle_vertex(tab, aspect_ratio, radius, color, k))
}

/// The three indices of fan triangle `t`, referencing vertex 0 as center.
pub open spec fn circle_triple(t: int) -> Seq<u16> {
    seq![(t + 1) as u16, 0u16, (t + 2) as u16]
}

/// The indices of the first `n` fan triangles, in emission order.
pub open spec fn circle_index_prefix(n: int) -> Seq<u16>
    decreases n,
{
    if n <= 0 {
        Seq::empty()
    } else {
        circle_index_prefix(n - 1) + circle_triple(n - 1)
    }
}

/// The complete circle fan index list: triangles `(i, 0, i + 1)` for `i` from
/// 1 to 359.
pub open spec fn circle_indices() -> Seq<u16> {
    circle_index_prefix(359)
}

/// Each fan triangle contributes three indices.
pub proof fn lemma_circle_index_prefix_len(n: int)
    requires
        0 <= n,
    ensures
        circle_index_prefix(n).len() == 3 * n,
    decreases n,
{
    if n > 0 {
        lemma_circle_index_prefix_len(n - 1);
    }
}

/// Builds the filled circle as a triangle fan around an explicit center
/// vertex, with perimeter samples at one-degree steps over a full turn (361
/// samples, so the loop closes), together with its fan index list.
pub fn generate_circle(tab: &TrigTable, aspect_ratio: i64, radius: i64, color: Color) -> (m: (
    Vec<Vertex>,
    Vec<u16>,
))
    requires
        tab.wf(),
        -RADIUS_LIMIT <= radius <= RADIUS_LIMIT,
        -ASPECT_LIMIT <= aspect_ratio <= ASPECT_LIMIT,
    ensures
        m.0@ == circle_vertices(*tab, aspect_ratio as int, radius as int, color),
        m.0@.len() == 362,
        m.1@ == circle_indices(),
        m.1@.len() == 1077,
{
    let mut positions: Vec<Vertex> = Vec::new();
    positions.push(Vertex { x: 0, y: 0, z: MICRO, color });

    let mut deg: usize = 0;
    while deg < 361
        invariant
            tab.wf(),
            -RADIUS_LIMIT <= radius <= RADIUS_LIMIT,
            -ASPECT_LIMIT <= aspect_ratio <= ASPECT_LIMIT,
            deg <= 361,
            positions@.len() == deg + 1,
            forall|k: int|
                0 <= k < deg + 1 ==> positions@[k] == circle_vertex(
                    *tab,
                    aspect_ratio as int,
                    radius as int,
                    color,
                    k,
                ),
        decreases 361 - deg,
    {
        positions.push(rim_point(tab, deg, radius, aspect_ratio, color));
        deg += 1;
    }
    proof {
        assert(positions@ =~= circle_vertices(*tab, aspect_ratio as int, radius as int, color));
    }

    let mut indices: Vec<u16> = Vec::new();
    let mut t: u16 = 0;
    while t < 359
        invariant
            t <= 359,
            indices@ == circle_index_prefix(t as int),
        decreases 359 - t,
    {
        indices.push(t + 1);
        indices.push(0);
        indices.push(t + 2);
        proof {
            assert(indices@ =~= circle_index_prefix(t as int + 1));
        }
        t += 1;
    }
    proof {
        lemma_circle_index_prefix_len(359);
    }

    (positions, indices)
}

/// The degree sampled by annulus vertex slot `k`: the seam pair at 0 degrees,
/// then 180 pairs at the odd degrees, then the closing pair at 360 degrees.
pub open spec fn band_slot_angle(k: int) -> int {
    if k < 2 {
        0
    } else if k < 362 {
        if k % 2 == 0 {
            k - 1
        } else {
            k - 2
        }
    } else {
        360
    }
}

/// Whether annulus vertex slot `k` lies on the inner edge. The seam pair is
/// emitted inner first, the per-degree pairs outer first.
pub open spec fn band_slot_is_inner(k: int) -> bool {
    if k < 2 {
        k == 0
    } else if k < 362 {
        k % 2 == 1
    } else {
        k == 363
    }
}

/// The vertex at annulus slot `k`: its edge picks the radius and the color.
pub open spec fn band_vertex(
    tab: TrigTable,
    aspect_ratio: int,
    outer_radius: int,
    inner_radius: int,
    color_outer: Color,
    color_inner: Color,
    k: int,
) -> Vertex {
    if band_slot_is_inner(k) {
        rim_vertex(tab, band_slot_angle(k), inner_radius, aspect_ratio, color_inner)
    } else {
        rim_vertex(tab, band_slot_angle(k), outer_radius, aspect_ratio, color_outer)
    }
}

/// The annulus vertex sequence: 364 vertices (180 segments of two vertices,
/// plus the four seam-closing vertices).
pub open spec fn band_vertices(
    tab: TrigTable,
    aspect_ratio: int,
    outer_radius: int,
    inner_radius: int,
    color_outer: Color,
    color_inner: Color,
) -> Seq<Vertex> {
    Seq::new(
        364,
        |k: int|
            band_vertex(tab, aspect_ratio, outer_radius, inner_radius, color_outer, color_inner, k),
    )
}

/// The shared annulus generator: both the flat ring and the glow ring are
/// configurations of this one parametrized band builder.
pub fn generate_band(
    tab: &TrigTable,
    aspect_ratio: i64,
    outer_radius: i64,
    inner_radius: i64,
    color_outer: Color,
    color_inner: Color,
) -> (verts: Vec<Vertex>)
    requires
        tab.wf(),
        -RADIUS_LIMIT <= outer_radius <= RADIUS_LIMIT,
        -RADIUS_LIMIT <= inner_radius <= RADIUS_LIMIT,
        -ASPECT_LIMIT <= aspect_ratio <= ASPECT_LIMIT,
    ensures
        verts@ == band_vertices(
            *tab,
            aspect_ratio as int,
            outer_radius as int,
            inner_radius as int,
            color_outer,
            color_inner,
        ),
        verts@.len() == 364,
{
    let ghost model = band_vertices(
        *tab,
        aspect_ratio as int,
        outer_radius as int,
        inner_radius as int,
        color_outer,
        color_inner,
    );
    let mut positions: Vec<Vertex> = Vec::new();
    positions.push(rim_point(tab, 0, inner_radius, aspect_ratio, color_inner));
    positions.push(rim_point(tab, 0, outer_radius, aspect_ratio, color_outer));

    let mut s: usize = 0;
    while s < 180
        invariant
            tab.wf(),
            -RADIUS_LIMIT <= outer_radius <= RADIUS_LIMIT,
            -RADIUS_LIMIT <= inner_radius <= RADIUS_LIMIT,
            -ASPECT_LIMIT <= aspect_ratio <= ASPECT_LIMIT,
            s <= 180,
            positions@.len() == 2 + 2 * s,
            forall|k: int| 0 <= k < 2 + 2 * s ==> positions@[k] == model[k],
            model == band_vertices(
                *tab,
                aspect_ratio as int,
                outer_radius as int,
                inner_radius as int,
                color_outer,
                color_inner,
            ),
        decreases 180 - s,
    {
        let ang: usize = 2 * s + 1;
        positions.push(rim_point(tab, ang, outer_radius, aspect_ratio, color_outer));
        positions.push(rim_point(tab, ang, inner_radius, aspect_ratio, color_inner));
        proof {
            assert((2 + 2 * s as int) % 2 == 0);
            assert((3 + 2 * s as int) % 2 == 1);
            assert(band_slot_angle(2 + 2 * s as int) == 2 * s as int + 1);
            assert(band_slot_angle(3 + 2 * s as int) == 2 * s as int + 1);
        }
        s += 1;
    }

    positions.push(rim_point(tab, 360, outer_radius, aspect_ratio, color_outer));
    positions.push(rim_point(tab, 360, inner_radius, aspect_ratio, color_inner));
    proof {
        assert(positions@ =~= model);
    }
    positions
}

/// Builds the flat ring: an annulus in a single uniform color.
pub fn generate_ring(
    tab: &TrigTable,
    aspect_ratio: i64,
    outer_radius: i64,
    inner_radius: i64,
    color: Color,
) -> (verts: Vec<Vertex>)
    requires
        tab.wf(),
        -RADIUS_LIMIT <= outer_radius <= RADIUS_LIMIT,
        -RADIUS_LIMIT <= inner_radius <= RADIUS_LIMIT,
        -ASPECT_LIMIT <= aspect_ratio <= ASPECT_LIMIT,
    ensures
        verts@ == band_vertices(
            *tab,
            aspect_ratio as int,
            outer_radius as int,
            inner_radius as int,
            color,
            color,
        ),
        verts@.len() == 364,
{
    generate_band(tab, aspect_ratio, outer_radius, inner_radius, color, color)
}

/// Builds the glow ring: the annulus with both radii shifted by the time
/// offset, colored `color_inner` at the inner edge and `color_outer` at the
/// outer edge, producing a radial gradient that breathes with the offset.
pub fn generate_glow_ring(
    tab: &TrigTable,
    aspect_ratio: i64,
    time_offset: i64,
    outer_radius: i64,
    inner_radius: i64,
    color_inner: Color,
    color_outer: Color,
) -> (verts: Vec<Vertex>)
    requires
        tab.wf(),
        -RADIUS_LIMIT <= outer_radius <= RADIUS_LIMIT,
        -RADIUS_LIMIT <= inner_radius <= RADIUS_LIMIT,
        -RADIUS_LIMIT <= outer_radius + time_offset <= RADIUS_LIMIT,
        -RADIUS_LIMIT <= inner_radius + time_offset <= RADIUS_LIMIT,
        -RADIUS_LIMIT <= time_offset <= RADIUS_LIMIT,
        -ASPECT_LIMIT <= aspect_ratio <= ASPECT_LIMIT,
    ensures
        verts@ == band_vertices(
            *tab,
            aspect_ratio as int,
            outer_radius + time_offset,
            inner_radius + time_offset,
            color_outer,
            color_inner,
        ),
        verts@.len() == 364,
{
    let eff_outer = outer_radius + time_offset;
    let eff_inner = inner_radius + time_offset;
    generate_band(tab, aspect_ratio, eff_outer, eff_inner, color_outer, color_inner)
}

/// A generated circle fan is closed: the last perimeter sample lies at 360
/// degrees, whose table entries equal those at 0 degrees, so its position
/// coincides with the first perimeter sample's.
pub proof fn lemma_circle_closed(tab: TrigTable, aspect_ratio: int, radius: int, color: Color)
    requires
        tab.wf(),
    ensures
        circle_vertices(tab, aspect_ratio, radius, color)[361] == circle_vertices(
            tab,
            aspect_ratio,
            radius,
            color,
        )[1],
{
}

/// With a zero time offset the glow ring degenerates geometrically to the
/// flat ring: vertex positions agree at every index, while the colors take
/// `color_inner` on the inner-edge vertices and `color_outer` on the
/// outer-edge ones.
pub proof fn lemma_glow_ring_zero_offset(
    tab: TrigTable,
    aspect_ratio: int,
    outer_radius: int,
    inner_radius: int,
    uniform: Color,
    color_inner: Color,
    color_outer: Color,
)
    ensures
        forall|k: int|
            0 <= k < 364 ==> (#[trigger] band_vertices(
                tab,
                aspect_ratio,
                outer_radius,
                inner_radius,
                color_outer,
                color_inner,
            )[k]).x == band_vertices(
                tab,
                aspect_ratio,
                outer_radius,
                inner_radius,
                uniform,
                uniform,
            )[k].x,
        forall|k: int|
            0 <= k < 364 ==> (#[trigger] band_vertices(
                tab,
                aspect_ratio,
                outer_radius,
                inner_radius,
                color_outer,
                color_inner,
            )[k]).y == band_vertices(
                tab,
                aspect_ratio,
                outer_radius,
                inner_radius,
                uniform,
                uniform,
            )[k].y,
        forall|k: int|
            0 <= k < 364 ==> (#[trigger] band_vertices(
                tab,
                aspect_ratio,
                outer_radius,
                inner_radius,
                color_outer,
                color_inner,
            )[k]).z == band_vertices(
                tab,
                aspect_ratio,
                outer_radius,
                inner_radius,
                uniform,
                uniform,
            )[k].z,
        forall|k: int|
            0 <= k < 364 && band_slot_is_inner(k) ==> (#[trigger] band_vertices(
                tab,
                aspect_ratio,
                outer_radius,
                inner_radius,
                color_outer,
                color_inner,
            )[k]).color == color_inner,
        forall|k: int|
            0 <= k < 364 && !band_slot_is_inner(k) ==> (#[trigger] band_vertices(
                tab,
                aspect_ratio,
                outer_radius,
                inner_radius,
                color_outer,
                color_inner,
            )[k]).color == color_outer,
{
}

} // verus!
