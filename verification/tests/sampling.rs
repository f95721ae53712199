use raymath::Interval;
use raymath::Vec2;
use raymath::Vec3;
use raymath::Vec4;

#[test]
fn ranged_draws_stay_inside_the_interval() {
    let range = Interval { start: -8, end: 8 };
    let mut i: u32 = 0;
    while i < 2000 {
        let v2 = Vec2::random_range(range);
        assert!(-8 <= v2.x && v2.x <= 8);
        assert!(-8 <= v2.y && v2.y <= 8);
        let v3 = Vec3::random_range(range);
        assert!(-8 <= v3.x && v3.x <= 8);
        assert!(-8 <= v3.y && v3.y <= 8);
        assert!(-8 <= v3.z && v3.z <= 8);
        let v4 = Vec4::random_range(range);
        assert!(-8 <= v4.x && v4.x <= 8);
        assert!(-8 <= v4.y && v4.y <= 8);
        assert!(-8 <= v4.z && v4.z <= 8);
        assert!(-8 <= v4.w && v4.w <= 8);
        i += 1;
    }
}

#[test]
fn a_degenerate_interval_pins_the_draw() {
    let range = Interval { start: 5, end: 5 };
    let v = Vec3::random_range(range);
    assert_eq!(v, Vec3::new(5, 5, 5));
}

#[test]
fn draws_vary_across_a_wide_interval() {
    // A sampler that ignored the generator and returned one endpoint would
    // leave these draws all equal; 200 draws over a wide interval must not.
    let range = Interval { start: 0, end: 1_000_000 };
    let first = Vec3::random_range(range);
    let mut saw_different = false;
    let mut i: u32 = 0;
    while i < 200 {
        if Vec3::random_range(range) != first {
            saw_different = true;
        }
        i += 1;
    }
    assert!(saw_different);
}
