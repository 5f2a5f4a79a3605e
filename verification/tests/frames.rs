use hud_rings::animation::AnimationState;
use hud_rings::animation::PHASE_MAX_MICRO;
use hud_rings::frame::RingTopology;
use hud_rings::frame::assemble_frame;
use hud_rings::frame::black;
use hud_rings::frame::mix_channel;
use hud_rings::frame::pulse_color;
use hud_rings::frame::purple;
use hud_rings::vertex_generator::TrigTable;
use hud_rings::vertex_generator::generate_glow_ring;
use hud_rings::vertex_generator::generate_ring;

fn table() -> TrigTable {
    let mut cosines = Vec::new();
    let mut sines = Vec::new();
    for deg in 0..=360u32 {
        let radians = (deg as f64).to_radians();
        cosines.push((radians.cos() * 1e6).round() as i64);
        sines.push((radians.sin() * 1e6).round() as i64);
    }
    TrigTable::new(cosines, sines).expect("the rounded unit-circle samples form a valid table")
}

#[test]
fn mix_channel_truncates_toward_zero() {
    assert_eq!(mix_channel(0, -5, 1, 3), -1);
    assert_eq!(mix_channel(0, 5, 1, 3), 1);
    assert_eq!(mix_channel(10, 10, 2, 3), 10);
}

#[test]
fn pulse_color_endpoints_hit_the_stops() {
    assert_eq!(pulse_color(purple(), black(), 0, PHASE_MAX_MICRO), purple());
    assert_eq!(pulse_color(purple(), black(), PHASE_MAX_MICRO, PHASE_MAX_MICRO), black());
}

#[test]
fn pulse_color_midpoint() {
    let mid = pulse_color(purple(), black(), PHASE_MAX_MICRO / 2, PHASE_MAX_MICRO);
    assert_eq!(mid.red, 231_373);
    assert_eq!(mid.green, 300_000);
    assert_eq!(mid.blue, 500_000);
    assert_eq!(mid.alpha, 500_000);
}

#[test]
fn idle_frame_draws_three_full_layers() {
    let tab = table();
    let mut s = AnimationState::new();
    for _ in 0..10 {
        s.advance();
    }
    let params = s.params();
    let layers = assemble_frame(&tab, 370_370, params);
    assert_eq!(layers.len(), 3);
    for layer in &layers {
        assert_eq!(layer.topology, RingTopology::Full);
    }

    let base = generate_ring(&tab, 370_370, 430_000, 340_000, purple());
    assert_eq!(layers[0].vertices, base);

    let outer_glow =
        generate_glow_ring(&tab, 370_370, params.phase_micro, 450_000, 400_000, purple(), black());
    assert_eq!(layers[1].vertices, outer_glow);

    let fade = pulse_color(purple(), black(), params.phase_micro, PHASE_MAX_MICRO);
    let inner_glow =
        generate_glow_ring(&tab, 370_370, params.phase_micro, 400_000, 310_000, black(), fade);
    assert_eq!(layers[2].vertices, inner_glow);
}

#[test]
fn recording_frame_draws_two_dashed_layers() {
    let tab = table();
    let mut s = AnimationState::new();
    s.toggle_record();
    s.advance();
    let layers = assemble_frame(&tab, 1_000_000, s.params());
    assert_eq!(layers.len(), 2);
    for layer in &layers {
        assert_eq!(layer.topology, RingTopology::Dashed);
    }
    // with the phase parked at zero the glow rings sit at their base radii
    // and the pulsing edge is the pure accent stop
    let outer_glow = generate_glow_ring(&tab, 1_000_000, 0, 450_000, 400_000, purple(), black());
    assert_eq!(layers[0].vertices, outer_glow);
    let inner_glow = generate_glow_ring(&tab, 1_000_000, 0, 400_000, 310_000, black(), purple());
    assert_eq!(layers[1].vertices, inner_glow);
}
