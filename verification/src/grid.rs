//! Placement of the instance grid.
//!
//! The scene replicates one mesh into an `n` by `n` grid, placed at
//! `spacing * (index - n / 2)` along each horizontal axis with `n / 2`
//! taken exactly; measuring displacement in units of *half* the spacing
//! constant makes every coordinate an integer, `2 * index - n`, for even
//! and odd `n` alike. The unverified layer multiplies each coordinate
//! by half the spacing constant to recover world positions.
//!
//! Every instance is tilted by a fixed angle about the axis through its own
//! position, except an instance standing exactly at the origin: the axis
//! would be the zero vector there, and a rotation built from it would
//! collapse the mesh, so that instance keeps the identity rotation instead.

use vstd::prelude::*;
use vstd::arithmetic::div_mod::{lemma_fundamental_div_mod, lemma_fundamental_div_mod_converse};

verus! {

/// Placement of one instance: its displacement from the grid centre in
/// units of half the spacing constant, and whether it carries the fixed
/// tilt (every instance off the origin) or the identity rotation (an
/// instance exactly at the origin).
#[derive(Clone, Copy, Debug, PartialEq, Eq, Structural)]
pub struct GridSlot {
    /// Displacement along the x axis, in half-spacing units.
    pub half_dx: i64,
    /// Displacement along the z axis, in half-spacing units.
    pub half_dz: i64,
    /// True when the instance is rotated about its own position axis;
    /// false when it sits at the origin and keeps the identity rotation.
    pub tilted: bool,
}

/// The slot at grid column `x`, row `z` of an `n` by `n` grid.
pub open spec fn slot_spec(n: u32, x: int, z: int) -> GridSlot {
    GridSlot {
        half_dx: (2 * x - n) as i64,
        half_dz: (2 * z - n) as i64,
        tilted: !(2 * x == n && 2 * z == n),
    }
}

/// The whole grid in row-major order: row `z` of the grid occupies
/// indices `z * n .. (z + 1) * n`, column `x` within it.
pub open spec fn grid_spec(n: u32) -> Seq<GridSlot> {
    Seq::new((n * n) as nat, |i: int| slot_spec(n, i % (n as int), i / (n as int)))
}

/// Build the instance grid. The result is a function of `n` alone, so two
/// runs with the same row count place every instance identically.
pub fn instance_grid(n: u32) -> (slots: Vec<GridSlot>)
    requires
        n <= 0xFFFF,
    ensures
        slots@ == grid_spec(n),
        slots@.len() == n * n,
{
    let mut slots: Vec<GridSlot> = Vec::new();
    let mut z: u32 = 0;
    while z < n
        invariant
            z <= n,
            n <= 0xFFFF,
            slots@.len() == z * n,
            slots@ =~= grid_spec(n).take((z * n) as int),
        decreases n - z,
    {
        let mut x: u32 = 0;
        while x < n
            invariant
                z < n,
                x <= n,
                n <= 0xFFFF,
                slots@.len() == z * n + x,
                slots@ =~= grid_spec(n).take((z * n + x) as int),
            decreases n - x,
        {
            let slot = GridSlot {
                half_dx: 2 * (x as i64) - (n as i64),
                half_dz: 2 * (z as i64) - (n as i64),
                tilted: !(2 * (x as i64) == n as i64 && 2 * (z as i64) == n as i64),
            };
            proof {
                let i = z * n + x;
                lemma_fundamental_div_mod_converse(i as int, n as int, z as int, x as int);
                assert(i < n * n) by (nonlinear_arith)
                    requires z < n && x < n && i == z * n + x;
                assert(grid_spec(n)[i as int] == slot);
            }
            slots.push(slot);
            x = x + 1;
        }
        z = z + 1;
        proof {
            assert(z * n == (z - 1) * n + n) by (nonlinear_arith);
        }
    }
    proof {
        assert(n * n <= 0xFFFF * 0xFFFF) by (nonlinear_arith)
            requires n <= 0xFFFF;
        assert(slots@ =~= grid_spec(n));
    }
    slots
}

/// The number of instances the grid holds.
pub fn instance_count(n: u32) -> (count: u32)
    requires
        n <= 0xFFFF,
    ensures
        count == grid_spec(n).len(),
{
    proof {
        assert(n * n <= 0xFFFF * 0xFFFF) by (nonlinear_arith)
            requires n <= 0xFFFF;
    }
    n * n
}

/// Row-major addressing: the slot for column `x`, row `z` stands at index
/// `z * n + x`.
pub proof fn lemma_slot_at(n: u32, x: u32, z: u32)
    requires
        x < n,
        z < n,
    ensures
        0 <= z * n + x < grid_spec(n).len(),
        grid_spec(n)[z * n + x] == slot_spec(n, x as int, z as int),
{
    lemma_fundamental_div_mod_converse((z * n + x) as int, n as int, z as int, x as int);
    assert(z * n + x < n * n) by (nonlinear_arith)
        requires z < n && x < n;
}

/// Grid placement is deterministic: any two grids built for the same row
/// count hold the same slots.
pub proof fn lemma_grid_deterministic(a: Seq<GridSlot>, b: Seq<GridSlot>, n: u32)
    requires
        a == grid_spec(n),
        b == grid_spec(n),
    ensures
        a == b,
{
}

/// In a grid with an even row count, the slot at column `n / 2`, row
/// `n / 2` stands exactly at the origin and keeps the identity rotation.
pub proof fn lemma_center_slot(n: u32)
    requires
        n > 0,
        n % 2 == 0,
    ensures
        0 <= (n / 2) * n + n / 2 < grid_spec(n).len(),
        grid_spec(n)[(n / 2) * n + n / 2] == (GridSlot { half_dx: 0, half_dz: 0, tilted: false }),
{
    lemma_slot_at(n, n / 2, n / 2);
}

/// The origin slot is the only one with the identity rotation: every slot
/// other than the centre of an even grid is tilted.
pub proof fn lemma_center_slot_unique(n: u32)
    requires
        n > 0,
        n % 2 == 0,
    ensures
        forall|i: int|
            0 <= i < grid_spec(n).len() && i != (n / 2) * n + n / 2
                ==> (#[trigger] grid_spec(n)[i]).tilted,
{
    assert forall|i: int|
        0 <= i < grid_spec(n).len() && i != (n / 2) * n + n / 2
            implies (#[trigger] grid_spec(n)[i]).tilted by {
        let x = i % (n as int);
        let z = i / (n as int);
        lemma_fundamental_div_mod(i, n as int);
        if 2 * x == n && 2 * z == n {
            assert(x == n / 2);
            assert(z == n / 2);
            assert(i == (n as int) * z + x);
            assert((n / 2) * (n as int) == (n as int) * (n / 2)) by (nonlinear_arith);
            assert(i == (n / 2) * n + n / 2);
        }
    }
}

/// A grid with an odd row count leaves no instance at the origin: every
/// slot is tilted.
pub proof fn lemma_odd_grid_all_tilted(n: u32)
    requires
        n % 2 == 1,
    ensures
        forall|i: int|
            0 <= i < grid_spec(n).len() ==> (#[trigger] grid_spec(n)[i]).tilted,
{
    assert forall|i: int| 0 <= i < grid_spec(n).len()
        implies (#[trigger] grid_spec(n)[i]).tilted by {
        let x = i % (n as int);
        assert(2 * x != n);
    }
}

} // verus!
