//! The frame assembler: once per frame it builds every visual layer from the
//! animation parameters, in the fixed draw order the backend composites
//! front-to-back (base ring, outer glow ring, inner glow ring).
//!
//! The inner glow's outer-edge color pulses with the animation phase: it is
//! an explicit interpolation between two named color stops, parameterized by
//! the normalized progress `phase / PHASE_MAX_MICRO`. While recording, the
//! assembler selects fewer layers and the dashed index topology.

use vstd::prelude::*;

verus! {

use crate::animation::FrameParams;
use crate::animation::PHASE_MAX_MICRO;
use crate::fixed::tdiv;
use crate::fixed::lemma_tdiv_mag;
use crate::vertex_generator::ASPECT_LIMIT;
use crate::vertex_generator::Color;
use crate::vertex_generator::TrigTable;
use crate::vertex_generator::Vertex;
use crate::vertex_generator::band_vertices;
use crate::vertex_generator::generate_glow_ring;
use crate::vertex_generator::generate_ring;

/// Outer radius of the base ring, in micro-units.
pub const BASE_OUTER_RADIUS_MICRO: i64 = 430_000;

/// Inner radius of the base ring.
pub const BASE_INNER_RADIUS_MICRO: i64 = 340_000;

/// Outer radius of the outer glow ring.
pub const OUTER_GLOW_OUTER_RADIUS_MICRO: i64 = 450_000;

/// Inner radius of the outer glow ring.
pub const OUTER_GLOW_INNER_RADIUS_MICRO: i64 = 400_000;

/// Outer radius of the inner glow ring.
pub const INNER_GLOW_OUTER_RADIUS_MICRO: i64 = 400_000;

/// Inner radius of the inner glow ring.
pub const INNER_GLOW_INNER_RADIUS_MICRO: i64 = 310_000;

/// Largest channel magnitude `mix_channel` accepts; channels may overshoot
/// one unit, deliberately unclamped.
pub const CHANNEL_LIMIT: i64 = 2_000_000_000;

/// The HUD's accent color stop.
pub open spec fn spec_purple() -> Color {
    Color { red: 462_745, green: 600_000, blue: 1_000_000, alpha: 500_000 }
}

/// The accent color stop, half-transparent violet-blue.
#[verifier::when_used_as_spec(spec_purple)]
pub fn purple() -> (c: Color)
    ensures
        c == spec_purple(),
{
    Color { red: 462_745, green: 600_000, blue: 1_000_000, alpha: 500_000 }
}

/// The faded color stop.
pub open spec fn spec_black() -> Color {
    Color { red: 0, green: 0, blue: 0, alpha: 500_000 }
}

/// The faded color stop, half-transparent black.
#[verifier::when_used_as_spec(spec_black)]
pub fn black() -> (c: Color)
    ensures
        c == spec_black(),
{
    Color { red: 0, green: 0, blue: 0, alpha: 500_000 }
}

/// Every channel within the magnitude `mix_channel` accepts.
pub open spec fn color_bounded(c: Color) -> bool {
    &&& -CHANNEL_LIMIT <= c.red <= CHANNEL_LIMIT
    &&& -CHANNEL_LIMIT <= c.green <= CHANNEL_LIMIT
    &&& -CHANNEL_LIMIT <= c.blue <= CHANNEL_LIMIT
    &&& -CHANNEL_LIMIT <= c.alpha <= CHANNEL_LIMIT
}

/// One channel interpolated from `a` (progress 0) to `b` (progress `den`),
/// the fractional part truncated toward zero.
pub open spec fn spec_mix_channel(a: int, b: int, num: int, den: int) -> int {
    a + tdiv((b - a) * num, den)
}

/// Linear interpolation of one color channel by the progress `num / den`.
pub fn mix_channel(a: i64, b: i64, num: i64, den: i64) -> (r: i64)
    requires
        -CHANNEL_LIMIT <= a <= CHANNEL_LIMIT,
        -CHANNEL_LIMIT <= b <= CHANNEL_LIMIT,
        0 < den <= 1_000_000,
        0 <= num <= den,
    ensures
        r == spec_mix_channel(a as int, b as int, num as int, den as int),
{
    let diff: i64 = b - a;
    proof {
        assert(-4_000_000_000_000_000 <= diff as int * num as int <= 4_000_000_000_000_000)
            by (nonlinear_arith)
            requires
                -4_000_000_000 <= diff <= 4_000_000_000,
                0 <= num <= 1_000_000,
        ;
    }
    let p: i64 = diff * num;
    proof {
        lemma_tdiv_mag(p as int, den as int, 4_000_000_000_000_000);
    }
    let q: i64 = if p >= 0 {
        ((p as u64) / (den as u64)) as i64
    } else {
        -((((-p) as u64) / (den as u64)) as i64)
    };
    a + q
}

/// The color at progress `num / den` between two stops, channel by channel.
pub open spec fn spec_pulse_color(from: Color, to: Color, num: int, den: int) -> Color {
    Color {
        red: spec_mix_channel(from.red as int, to.red as int, num, den) as i64,
        green: spec_mix_channel(from.green as int, to.green as int, num, den) as i64,
        blue: spec_mix_channel(from.blue as int, to.blue as int, num, den) as i64,
        alpha: spec_mix_channel(from.alpha as int, to.alpha as int, num, den) as i64,
    }
}

/// Interpolates every channel between two color stops by the normalized
/// progress `num / den`; channels are free to overshoot, never clamped.
pub fn pulse_color(from: Color, to: Color, num: i64, den: i64) -> (c: Color)
    requires
        color_bounded(from),
        color_bounded(to),
        0 < den <= 1_000_000,
        0 <= num <= den,
    ensures
        c == spec_pulse_color(from, to, num as int, den as int),
{
    Color {
        red: mix_channel(from.red, to.red, num, den),
        green: mix_channel(from.green, to.green, num, den),
        blue: mix_channel(from.blue, to.blue, num, den),
        alpha: mix_channel(from.alpha, to.alpha, num, den),
    }
}

/// The pulsing color of the inner glow's outer edge: the accent stop fading
/// to the black stop as the phase runs from zero to its bound.
pub open spec fn spec_frame_pulse(phase: int) -> Color {
    spec_pulse_color(spec_purple(), spec_black(), phase, PHASE_MAX_MICRO as int)
}

/// Which shared index buffer a layer is drawn with.
#[derive(Clone, Copy, Debug, PartialEq, Eq, Structural)]
pub enum RingTopology {
    Full,
    Dashed,
}

/// One draw layer: an annulus vertex mesh and the index topology it uses.
/// Layers are drawn in sequence order, one draw call each.
pub struct FrameLayer {
    pub vertices: Vec<Vertex>,
    pub topology: RingTopology,
}

/// The base ring's vertices for the frame.
pub open spec fn base_ring_vertices(tab: TrigTable, aspect_ratio: int) -> Seq<Vertex> {
    band_vertices(
        tab,
        aspect_ratio,
        BASE_OUTER_RADIUS_MICRO as int,
        BASE_INNER_RADIUS_MICRO as int,
        spec_purple(),
        spec_purple(),
    )
}

/// The outer glow ring's vertices: accent at the inner edge fading to black
/// at the outer edge, both radii breathing with the phase.
pub open spec fn outer_glow_vertices(tab: TrigTable, aspect_ratio: int, phase: int) -> Seq<
    Vertex,
> {
    band_vertices(
        tab,
        aspect_ratio,
        OUTER_GLOW_OUTER_RADIUS_MICRO + phase,
        OUTER_GLOW_INNER_RADIUS_MICRO + phase,
        spec_black(),
        spec_purple(),
    )
}

/// The inner glow ring's vertices: black at the inner edge, the pulsing
/// color at the outer edge.
pub open spec fn inner_glow_vertices(tab: TrigTable, aspect_ratio: int, phase: int) -> Seq<
    Vertex,
> {
    band_vertices(
        tab,
        aspect_ratio,
        INNER_GLOW_OUTER_RADIUS_MICRO + phase,
        INNER_GLOW_INNER_RADIUS_MICRO + phase,
        spec_frame_pulse(phase),
        spec_black(),
    )
}

/// Builds every visual layer for one frame, in draw order. Idle frames hold
/// the base ring and both glow rings on the full ring topology; recording
/// frames hold the two glow rings on the dashed topology.
pub fn assemble_frame(tab: &TrigTable, aspect_ratio: i64, params: FrameParams) -> (layers: Vec<
    FrameLayer,
>)
    requires
        tab.wf(),
        params.wf(),
        -ASPECT_LIMIT <= aspect_ratio <= ASPECT_LIMIT,
    ensures
        !params.is_recording ==> layers@.len() == 3,
        params.is_recording ==> layers@.len() == 2,
        !params.is_recording ==> {
            &&& layers@[0].vertices@ == base_ring_vertices(*tab, aspect_ratio as int)
            &&& layers@[0].topology == RingTopology::Full
            &&& layers@[1].vertices@ == outer_glow_vertices(
                *tab,
                aspect_ratio as int,
                params.phase_micro as int,
            )
            &&& layers@[1].topology == RingTopology::Full
            &&& layers@[2].vertices@ == inner_glow_vertices(
                *tab,
                aspect_ratio as int,
                params.phase_micro as int,
            )
            &&& layers@[2].topology == RingTopology::Full
        },
        params.is_recording ==> {
            &&& layers@[0].vertices@ == outer_glow_vertices(
                *tab,
                aspect_ratio as int,
                params.phase_micro as int,
            )
            &&& layers@[0].topology == RingTopology::Dashed
            &&& layers@[1].vertices@ == inner_glow_vertices(
                *tab,
                aspect_ratio as int,
                params.phase_micro as int,
            )
            &&& layers@[1].topology == RingTopology::Dashed
        },
{
    let mut layers: Vec<FrameLayer> = Vec::new();
    let phase = params.phase_micro;

    if !params.is_recording {
        let base = generate_ring(
            tab,
            aspect_ratio,
            BASE_OUTER_RADIUS_MICRO,
            BASE_INNER_RADIUS_MICRO,
            purple(),
        );
        layers.push(FrameLayer { vertices: base, topology: RingTopology::Full });

        let outer_glow = generate_glow_ring(
            tab,
            aspect_ratio,
            phase,
            OUTER_GLOW_OUTER_RADIUS_MICRO,
            OUTER_GLOW_INNER_RADIUS_MICRO,
            purple(),
            black(),
        );
        layers.push(FrameLayer { vertices: outer_glow, topology: RingTopology::Full });

        let fade = pulse_color(purple(), black(), phase, PHASE_MAX_MICRO);
        let inner_glow = generate_glow_ring(
            tab,
            aspect_ratio,
            phase,
            INNER_GLOW_OUTER_RADIUS_MICRO,
            INNER_GLOW_INNER_RADIUS_MICRO,
            black(),
            fade,
        );
        layers.push(FrameLayer { vertices: inner_glow, topology: RingTopology::Full });
    } else {
        let outer_glow = generate_glow_ring(
            tab,
            aspect_ratio,
            phase,
            OUTER_GLOW_OUTER_RADIUS_MICRO,
            OUTER_GLOW_INNER_RADIUS_MICRO,
            purple(),
            black(),
        );
        layers.push(FrameLayer { vertices: outer_glow, topology: RingTopology::Dashed });

        let fade = pulse_color(purple(), black(), phase, PHASE_MAX_MICRO);
        let inner_glow = generate_glow_ring(
            tab,
            aspect_ratio,
            phase,
            INNER_GLOW_OUTER_RADIUS_MICRO,
            INNER_GLOW_INNER_RADIUS_MICRO,
            black(),
            fade,
        );
        layers.push(FrameLayer { vertices: inner_glow, topology: RingTopology::Dashed });
    }
    layers
}

} // verus!
