use epar_core::fx::FX_ONE;
use epar_core::geom::{
    collide_ca, collide_capsule, collide_cc, collide_chc, collide_circ_arc, collide_cr,
    rectify_line, Rot,
};
use epar_core::vec2::Vec2;

fn v(x: i64, y: i64) -> Vec2 {
    Vec2 { x, y }
}

#[test]
fn circle_circle_touching() {
    // centers 8 apart, radii 5 + 5 = 10: dist 8 <= 10.
    assert!(collide_cc(v(0, 0), 5000, v(8000, 0), 5000));
}

#[test]
fn circle_circle_apart() {
    // centers 11 apart, radii 5 + 5 = 10: dist 11 > 10.
    assert!(!collide_cc(v(0, 0), 5000, v(11000, 0), 5000));
}

#[test]
fn circle_circle_exact_touch() {
    assert!(collide_cc(v(0, 0), 5000, v(10000, 0), 5000));
    assert!(!collide_cc(v(0, 0), 5000, v(10001, 0), 5000));
}

#[test]
fn circle_rect_edge_and_corner() {
    let rpos = v(0, 0);
    let rsize = v(10000, 10000);
    // right edge: center 5 to the right of the edge, radius exactly 5.
    assert!(collide_ca(rpos, rsize, v(15000, 5000), 5000));
    assert!(!collide_ca(rpos, rsize, v(15000, 5000), 4999));
    // corner: a 3-4-5 triangle from the corner (10, 10).
    assert!(collide_ca(rpos, rsize, v(13000, 14000), 5000));
    assert!(!collide_ca(rpos, rsize, v(13000, 14000), 4999));
    // interior always collides.
    assert!(collide_ca(rpos, rsize, v(5000, 5000), 0));
}

#[test]
fn rotation_zero_matches_aabb() {
    // A zero rotation is a no-op transform: the rotated-rectangle test must
    // agree with the axis-aligned test whose corner is half a size up-left
    // of the center.
    let center = v(10000, 10000);
    let size = v(10000, 6000);
    let corner = v(5000, 7000);
    let probes = [
        v(0, 0),
        v(10000, 10000),
        v(4000, 6000),
        v(16000, 13500),
        v(15200, 10000),
        v(10000, 13200),
    ];
    for p in probes {
        for rad in [0i64, 300, 5000] {
            assert_eq!(
                collide_cr(center, size, Rot::identity(), p, rad),
                collide_ca(corner, size, p, rad),
            );
        }
    }
}

#[test]
fn hollow_circle_ring() {
    // annulus around the origin: outer 10, inner 5, probe radius 1.
    assert!(collide_chc(v(7000, 0), 1000, v(0, 0), 10000, 5000));
    // deep inside the hole.
    assert!(!collide_chc(v(2000, 0), 1000, v(0, 0), 10000, 5000));
    // far outside.
    assert!(!collide_chc(v(20000, 0), 1000, v(0, 0), 10000, 5000));
}

#[test]
fn capsule_as_thick_segment() {
    let a = v(0, 0);
    let b = v(10000, 0);
    // 2.5 above the midline with combined radius 2: misses.
    assert!(!collide_capsule(a, b, 1000, v(5000, 2500), 1000));
    // 1.5 above the midline with combined radius 2: hits.
    assert!(collide_capsule(a, b, 1000, v(5000, 1500), 1000));
}

#[test]
fn rectified_segment_shape() {
    let (center, size, rot) = rectify_line(v(0, 0), v(10000, 0), 2000);
    assert_eq!(center, v(5000, 0));
    assert_eq!(size, v(10000, 2000));
    assert_eq!(rot, Rot { c: FX_ONE, s: 0 });
    // a 3-4-5 diagonal: length 5000, direction (3/5, 4/5).
    let (_c2, size2, rot2) = rectify_line(v(0, 0), v(3000, 4000), 0);
    assert_eq!(size2.x, 5000);
    assert_eq!(rot2, Rot { c: 600, s: 800 });
}

#[test]
fn arc_angular_bounds() {
    // the half-plane pair from the identity and the half-turn rotation
    // keeps only points near the arc's equator.
    let ang1 = Rot::identity();
    let ang2 = Rot { c: -FX_ONE, s: 0 };
    assert!(collide_circ_arc(v(7000, 100), 100, v(0, 0), 10000, 5000, ang1, ang2));
    // inside the hole: the annulus test fails.
    assert!(!collide_circ_arc(v(2000, 100), 100, v(0, 0), 10000, 5000, ang1, ang2));
}
