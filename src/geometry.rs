//! Procedural geometry: fan triangulation of convex polygons and the
//! placement of an instance grid.

use vstd::arithmetic::div_mod::lemma_fundamental_div_mod;
use vstd::prelude::*;

verus! {

/// The `t`-th triangle of a fan anchored at vertex 0, wound so that it stays
/// front-facing for vertices laid out clockwise: `(0, t + 2, t + 1)`.
pub open spec fn fan_triangle(t: int) -> (int, int, int) {
    (0, t + 2, t + 1)
}

/// The index list of the first `k` fan triangles, three indices each.
pub open spec fn fan_seq(k: nat) -> Seq<int>
    decreases k,
{
    if k == 0 {
        Seq::empty()
    } else {
        let t = k - 1;
        fan_seq((k - 1) as nat) + seq![fan_triangle(t).0, fan_triangle(t).1, fan_triangle(t).2]
    }
}

proof fn lemma_fan_seq(k: nat)
    ensures
        fan_seq(k).len() == 3 * k,
        forall|t: int|
            0 <= t < k ==> {
                &&& #[trigger] fan_seq(k)[3 * t] == fan_triangle(t).0
                &&& fan_seq(k)[3 * t + 1] == fan_triangle(t).1
                &&& fan_seq(k)[3 * t + 2] == fan_triangle(t).2
            },
    decreases k,
{
    if k > 0 {
        lemma_fan_seq((k - 1) as nat);
    }
}

/// Index list (three per triangle) that splits a convex polygon of `m`
/// vertices into the `m - 2` triangles of a fan anchored at vertex 0.
pub fn fan_indices(m: u16) -> (r: Vec<u16>)
    requires
        m >= 3,
    ensures
        r@.len() == 3 * (m - 2),
        r@.map_values(|v: u16| v as int) == fan_seq((m - 2) as nat),
        forall|t: int|
            0 <= t < m - 2 ==> {
                &&& r@[3 * t] as int == fan_triangle(t).0
                &&& r@[3 * t + 1] as int == fan_triangle(t).1
                &&& r@[3 * t + 2] as int == fan_triangle(t).2
            },
        forall|i: int| 0 <= i < r@.len() ==> (r@[i] as int) < m,
{
    let triangles: u16 = m - 2;
    let mut r: Vec<u16> = Vec::new();
    let mut i: u16 = 1;
    while i <= triangles
        invariant
            1 <= i <= triangles + 1,
            triangles == m - 2,
            r@.len() == 3 * (i - 1),
            r@.map_values(|v: u16| v as int) == fan_seq((i - 1) as nat),
            forall|t: int|
                0 <= t < i - 1 ==> {
                    &&& r@[3 * t] as int == fan_triangle(t).0
                    &&& r@[3 * t + 1] as int == fan_triangle(t).1
                    &&& r@[3 * t + 2] as int == fan_triangle(t).2
                },
            forall|j: int| 0 <= j < r@.len() ==> (r@[j] as int) < m,
        decreases triangles + 1 - i,
    {
        r.push(0);
        r.push(i + 1);
        r.push(i);
        proof {
            assert(r@.map_values(|v: u16| v as int) =~= fan_seq(i as nat));
        }
        i = i + 1;
    }
    proof {
        lemma_fan_seq((m - 2) as nat);
    }
    r
}

/// Rotation of one grid instance.
#[derive(PartialEq, Eq, Structural, Clone, Copy, Debug)]
pub enum InstanceRotation {
    /// No rotation: used at the exact centre, whose position vector is zero.
    Identity,
    /// A turn of `TILT_DEGREES` about the instance's own normalised position.
    Tilted,
}

/// The fixed angle, in degrees, of every rotated grid instance.
pub const TILT_DEGREES: u32 = 45;

/// One instance of the grid. Coordinates are doubled so that they stay exact
/// for odd row lengths: the world position is `(x2 / 2, 0, z2 / 2)`.
#[derive(PartialEq, Eq, Structural, Clone, Copy, Debug)]
pub struct GridInstance {
    pub x2: i64,
    pub z2: i64,
    pub rotation: InstanceRotation,
}

/// The instance in column `x` and row `z` of a grid with `n` per row,
/// displaced so that the grid is centred on the origin.
pub open spec fn grid_cell(n: int, z: int, x: int) -> GridInstance {
    let x2 = 2 * x - n;
    let z2 = 2 * z - n;
    GridInstance {
        x2: x2 as i64,
        z2: z2 as i64,
        rotation: if x2 == 0 && z2 == 0 {
            InstanceRotation::Identity
        } else {
            InstanceRotation::Tilted
        },
    }
}

fn make_cell(n: u32, z: u32, x: u32) -> (c: GridInstance)
    requires
        z < n,
        x < n,
    ensures
        c == grid_cell(n as int, z as int, x as int),
{
    let x2: i64 = 2 * (x as i64) - (n as i64);
    let z2: i64 = 2 * (z as i64) - (n as i64);
    let rotation = if x2 == 0 && z2 == 0 {
        InstanceRotation::Identity
    } else {
        InstanceRotation::Tilted
    };
    GridInstance { x2, z2, rotation }
}

/// The `n * n` instances of the grid, row by row (`z` outer, `x` inner).
pub fn instance_grid(n: u32) -> (r: Vec<GridInstance>)
    requires
        n as int * n as int <= usize::MAX,
    ensures
        r@.len() == n * n,
        forall|z: int, x: int|
            0 <= z < n && 0 <= x < n ==> #[trigger] r@[z * n + x] == grid_cell(n as int, z, x),
        forall|k: int| 0 <= k < n * n ==> #[trigger] r@[k] == grid_cell(n as int, k / n as int, k % n as int),
{
    let mut r: Vec<GridInstance> = Vec::new();
    let mut z: u32 = 0;
    while z < n
        invariant
            z <= n,
            n as int * n as int <= usize::MAX,
            r@.len() == z * n,
            forall|zz: int, xx: int|
                0 <= zz < z && 0 <= xx < n ==> #[trigger] r@[zz * n + xx] == grid_cell(n as int, zz, xx),
        decreases n - z,
    {
        let mut x: u32 = 0;
        while x < n
            invariant
                z < n,
                x <= n,
                r@.len() == z * n + x,
                forall|zz: int, xx: int|
                    0 <= zz < z && 0 <= xx < n ==> #[trigger] r@[zz * n + xx] == grid_cell(n as int, zz, xx),
                forall|xx: int| 0 <= xx < x ==> #[trigger] r@[z * n + xx] == grid_cell(n as int, z as int, xx),
            decreases n - x,
        {
            let c = make_cell(n, z, x);
            let ghost prev = r@;
            r.push(c);
            assert forall|zz: int, xx: int|
                0 <= zz < z && 0 <= xx < n implies #[trigger] r@[zz * n + xx] == grid_cell(n as int, zz, xx) by {
                lemma_row_before(n as int, zz, xx, z as int);
                assert(r@[zz * n + xx] == prev[zz * n + xx]);
            }
            assert forall|xx: int| 0 <= xx < x + 1 implies #[trigger] r@[z * n + xx] == grid_cell(n as int, z as int, xx) by {
                if xx < x {
                    assert(r@[z * n + xx] == prev[z * n + xx]);
                }
            }
            x = x + 1;
        }
        proof {
            assert((z + 1) * n == z * n + n) by (nonlinear_arith);
        }
        z = z + 1;
    }
    assert forall|k: int| 0 <= k < n * n implies #[trigger] r@[k] == grid_cell(n as int, k / n as int, k % n as int) by {
        lemma_cell_index(n as int, k);
        assert(r@[(k / n as int) * n + (k % n as int)] == grid_cell(n as int, k / n as int, k % n as int));
    }
    r
}

proof fn lemma_cell_index(n: int, k: int)
    requires
        0 <= n,
        0 <= k < n * n,
    ensures
        0 <= k / n < n,
        0 <= k % n < n,
        k == (k / n) * n + k % n,
{
    let q = k / n;
    let r = k % n;
    assert(n > 0) by (nonlinear_arith)
        requires 0 <= n, 0 <= k < n * n;
    lemma_fundamental_div_mod(k, n);
    assert(k == q * n + r) by (nonlinear_arith)
        requires k == n * q + r;
    assert(q >= 0) by (nonlinear_arith)
        requires k == n * q + r, 0 <= r < n, k >= 0, n > 0;
    assert(q < n) by (nonlinear_arith)
        requires k == n * q + r, r >= 0, k < n * n, n > 0;
}

proof fn lemma_row_before(n: int, zz: int, xx: int, z: int)
    requires
        0 <= zz < z,
        0 <= xx < n,
    ensures
        0 <= zz * n + xx < z * n,
{
    assert(zz * n + xx < (zz + 1) * n) by (nonlinear_arith)
        requires 0 <= xx < n;
    assert((zz + 1) * n <= z * n) by (nonlinear_arith)
        requires zz + 1 <= z, 0 <= xx < n;
    assert(0 <= zz * n) by (nonlinear_arith)
        requires 0 <= zz, 0 <= xx < n;
}

/// Only the instance at the exact centre of the grid keeps the identity
/// rotation; every other instance is tilted by the fixed angle.
pub proof fn lemma_only_centre_is_unrotated(n: int, z: int, x: int)
    requires
        0 <= z < n,
        0 <= x < n,
    ensures
        (grid_cell(n, z, x).rotation == InstanceRotation::Identity) <==> (2 * x == n && 2 * z == n),
{
}

} // verus!
