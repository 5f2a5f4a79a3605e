use hud_rings::fixed::aspect_ratio_micro;
use hud_rings::fixed::fixed_mul;
use hud_rings::index_generator;
use hud_rings::vertex_generator::Color;
use hud_rings::vertex_generator::TrigTable;
use hud_rings::vertex_generator::Vertex;
use hud_rings::vertex_generator::generate_band;
use hud_rings::vertex_generator::generate_circle;
use hud_rings::vertex_generator::generate_glow_ring;
use hud_rings::vertex_generator::generate_ring;

const ONE: i64 = 1_000_000;

fn trig_columns() -> (Vec<i64>, Vec<i64>) {
    let mut cosines = Vec::new();
    let mut sines = Vec::new();
    for deg in 0..=360u32 {
        let radians = (deg as f64).to_radians();
        cosines.push((radians.cos() * 1e6).round() as i64);
        sines.push((radians.sin() * 1e6).round() as i64);
    }
    (cosines, sines)
}

fn table() -> TrigTable {
    let (cosines, sines) = trig_columns();
    TrigTable::new(cosines, sines).expect("the rounded unit-circle samples form a valid table")
}

fn red() -> Color {
    Color { red: ONE, green: 0, blue: 0, alpha: ONE }
}

fn positions_equal(a: &Vertex, b: &Vertex) -> bool {
    a.x == b.x && a.y == b.y && a.z == b.z
}

#[test]
fn fixed_mul_scales_products_back() {
    assert_eq!(fixed_mul(500_000, 500_000), 250_000);
    assert_eq!(fixed_mul(-500_000, 500_000), -250_000);
    assert_eq!(fixed_mul(2_000_000, 750_000), 1_500_000);
    // truncation is toward zero on both sides
    assert_eq!(fixed_mul(1, 1), 0);
    assert_eq!(fixed_mul(-1, 1), 0);
}

#[test]
fn aspect_ratio_is_width_over_height() {
    assert_eq!(aspect_ratio_micro(400, 1080), 370_370);
    assert_eq!(aspect_ratio_micro(1920, 1080), 1_777_777);
    assert_eq!(aspect_ratio_micro(1080, 1080), ONE);
    assert_eq!(aspect_ratio_micro(0, 10), 0);
}

#[test]
fn trig_table_rejects_bad_columns() {
    let (cosines, sines) = trig_columns();

    let mut short = cosines.clone();
    short.pop();
    assert!(TrigTable::new(short, sines.clone()).is_none());

    let mut too_big = cosines.clone();
    too_big[17] = ONE + 1;
    assert!(TrigTable::new(too_big, sines.clone()).is_none());

    let mut open_seam = sines.clone();
    open_seam[360] = 25;
    assert!(TrigTable::new(cosines.clone(), open_seam).is_none());

    assert!(TrigTable::new(cosines, sines).is_some());
}

#[test]
fn circle_first_perimeter_vertex_scenario() {
    // aspect ratio 1.0, radius 0.5, color (1, 0, 0, 1): the angle-0 sample
    // sits on the positive y-axis at (0.0, 0.5, 1.0)
    let tab = table();
    let (vertices, _) = generate_circle(&tab, ONE, 500_000, red());
    let first_perimeter = vertices[1];
    assert_eq!(first_perimeter.x, 0);
    assert_eq!(first_perimeter.y, 500_000);
    assert_eq!(first_perimeter.z, ONE);
    assert_eq!(first_perimeter.color, red());
}

#[test]
fn circle_fan_is_closed() {
    let tab = table();
    let (vertices, indices) = generate_circle(&tab, 1_300_000, 700_000, red());
    assert_eq!(vertices.len(), 362);
    // the center vertex comes first
    assert_eq!(vertices[0].x, 0);
    assert_eq!(vertices[0].y, 0);
    assert_eq!(vertices[0].z, ONE);
    // the last perimeter sample (360 degrees) coincides with the first
    assert!(positions_equal(&vertices[361], &vertices[1]));
    // the fan index list is (i, 0, i + 1) for i in 1..360
    assert_eq!(indices.len(), 1077);
    assert_eq!(indices[0..3].to_vec(), vec![1u16, 0, 2]);
    assert_eq!(indices[1074..1077].to_vec(), vec![359u16, 0, 360]);
}

#[test]
fn ring_vertex_count_is_constant() {
    let tab = table();
    let cases: [(i64, i64, i64); 4] = [
        (ONE, 430_000, 340_000),
        (250_000, 900_000, 10_000),
        // inner beyond outer and negative aspect are degenerate but accepted
        (ONE, 300_000, 800_000),
        (-2_000_000, 450_000, 400_000),
    ];
    for (aspect_ratio, outer, inner) in cases {
        let vertices = generate_ring(&tab, aspect_ratio, outer, inner, red());
        assert_eq!(vertices.len(), 364);
    }
}

#[test]
fn ring_seam_pairs_coincide() {
    let tab = table();
    let vertices = generate_ring(&tab, ONE, 430_000, 340_000, red());
    // the closing pair at 360 degrees repeats the opening pair at 0 degrees,
    // with the emission order swapped (inner, outer) -> (outer, inner)
    assert!(positions_equal(&vertices[362], &vertices[1]));
    assert!(positions_equal(&vertices[363], &vertices[0]));
}

#[test]
fn glow_ring_zero_offset_degenerates_to_ring() {
    let tab = table();
    let inner_color = Color { red: 0, green: 0, blue: 0, alpha: 500_000 };
    let outer_color = Color { red: 462_745, green: 600_000, blue: ONE, alpha: 500_000 };
    let glow = generate_glow_ring(&tab, ONE, 0, 450_000, 400_000, inner_color, outer_color);
    let ring = generate_ring(&tab, ONE, 450_000, 400_000, red());
    assert_eq!(glow.len(), ring.len());
    for k in 0..glow.len() {
        assert!(positions_equal(&glow[k], &ring[k]));
        let is_inner = if k < 2 { k == 0 } else if k < 362 { k % 2 == 1 } else { k == 363 };
        if is_inner {
            assert_eq!(glow[k].color, inner_color);
        } else {
            assert_eq!(glow[k].color, outer_color);
        }
    }
}

#[test]
fn glow_ring_offset_shifts_both_radii() {
    let tab = table();
    let inner_color = red();
    let outer_color = Color { red: 0, green: ONE, blue: 0, alpha: ONE };
    let offset: i64 = 10_000;
    let glow = generate_glow_ring(&tab, 900_000, offset, 450_000, 400_000, inner_color, outer_color);
    let shifted = generate_band(
        &tab,
        900_000,
        450_000 + offset,
        400_000 + offset,
        outer_color,
        inner_color,
    );
    assert_eq!(glow, shifted);
}

#[test]
fn ring_index_topology() {
    let indices = index_generator::generate_ring();
    assert_eq!(indices.len(), 1086);
    // seam quad
    assert_eq!(indices[0..6].to_vec(), vec![0u16, 1, 2, 0, 2, 3]);
    // first regular quad stitches vertex pairs 2..6
    assert_eq!(indices[6..12].to_vec(), vec![3u16, 2, 4, 3, 4, 5]);
    // the final quad reaches the closing pair at slots 362 and 363
    assert_eq!(indices[1080..1086].to_vec(), vec![361u16, 360, 362, 361, 362, 363]);
    assert_eq!(indices.iter().copied().max(), Some(363));
}

#[test]
fn partial_ring_keeps_quads_in_twenty_degree_dashes() {
    let full = index_generator::generate_ring();
    let partial = index_generator::generate_partial_ring();
    // expected: quad q (starting at degree 2 * q) kept while the predicate,
    // toggling every 20 degrees, is on
    let mut expected: Vec<u16> = Vec::new();
    let mut kept: usize = 0;
    for q in 0..181usize {
        if (2 * q / 20) % 2 == 0 {
            expected.extend_from_slice(&full[6 * q..6 * q + 6]);
            kept += 1;
        }
    }
    assert_eq!(kept, 91);
    assert_eq!(partial.len(), 546);
    assert_eq!(partial, expected);
}
