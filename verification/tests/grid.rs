use render_core::grid::{instance_count, instance_grid, GridSlot};

#[test]
fn ten_grid_has_a_hundred_slots() {
    let g = instance_grid(10);
    assert_eq!(g.len(), 100);
    assert_eq!(instance_count(10), 100);
}

#[test]
fn ten_grid_center_is_origin_and_untilted() {
    // Grid index (5, 5) of a 10 by 10 grid is flat index 5 * 10 + 5.
    let g = instance_grid(10);
    let center = g[55];
    assert_eq!(center, GridSlot { half_dx: 0, half_dz: 0, tilted: false });
    // With the spacing constant 3.0 the world position is exactly the
    // origin.
    let spacing: f32 = 3.0;
    let x = spacing / 2.0 * center.half_dx as f32;
    let z = spacing / 2.0 * center.half_dz as f32;
    assert_eq!((x, 0.0, z), (0.0, 0.0, 0.0));
}

#[test]
fn ten_grid_center_is_the_only_untilted_slot() {
    let g = instance_grid(10);
    for (i, slot) in g.iter().enumerate() {
        assert_eq!(slot.tilted, i != 55, "slot {}", i);
    }
}

#[test]
fn ten_grid_corners() {
    let g = instance_grid(10);
    assert_eq!(g[0], GridSlot { half_dx: -10, half_dz: -10, tilted: true });
    assert_eq!(g[9], GridSlot { half_dx: 8, half_dz: -10, tilted: true });
    assert_eq!(g[90], GridSlot { half_dx: -10, half_dz: 8, tilted: true });
    assert_eq!(g[99], GridSlot { half_dx: 8, half_dz: 8, tilted: true });
    // With spacing 3.0, the first corner stands at -15.0 on both axes,
    // exactly 3.0 * (0 - 10 / 2).
    assert_eq!(3.0f32 / 2.0 * g[0].half_dx as f32, -15.0);
}

#[test]
fn grid_generation_is_deterministic() {
    let a = instance_grid(10);
    let b = instance_grid(10);
    assert_eq!(a, b);
    let c = instance_grid(7);
    let d = instance_grid(7);
    assert_eq!(c, d);
}

#[test]
fn odd_grid_has_no_untilted_slot() {
    let g = instance_grid(3);
    assert_eq!(g.len(), 9);
    for slot in &g {
        assert!(slot.tilted);
    }
    assert_eq!(g[4], GridSlot { half_dx: -1, half_dz: -1, tilted: true });
}

#[test]
fn empty_and_single_grids() {
    assert_eq!(instance_grid(0).len(), 0);
    let g = instance_grid(1);
    assert_eq!(g.len(), 1);
    assert_eq!(g[0], GridSlot { half_dx: -1, half_dz: -1, tilted: true });
}

#[test]
fn row_major_order() {
    // Index z * n + x: walking one row varies half_dx, stepping rows
    // varies half_dz.
    let g = instance_grid(4);
    for z in 0..4usize {
        for x in 0..4usize {
            let slot = g[z * 4 + x];
            assert_eq!(slot.half_dx, 2 * x as i64 - 4);
            assert_eq!(slot.half_dz, 2 * z as i64 - 4);
        }
    }
}
