use vstd::prelude::*;

verus! {

/// Position, in the vertex list of a river grid `res_w` cells wide, of the grid
/// point in row `z` and column `x` (rows hold `res_w + 1` points).
pub open spec fn grid_vertex(res_w: nat, z: nat, x: nat) -> nat {
    z * (res_w + 1) + x
}

/// The `j`-th index (`j < 6`) that the cell in row `z`, column `x` contributes:
/// the triangles `(tl, bl, tr)` and `(tr, bl, br)`.
pub open spec fn quad_corner(res_w: nat, z: nat, x: nat, j: nat) -> nat {
    let tl = grid_vertex(res_w, z, x);
    let tr = grid_vertex(res_w, z, x + 1);
    let bl = grid_vertex(res_w, z + 1, x);
    let br = grid_vertex(res_w, z + 1, x + 1);
    if j == 0 {
        tl
    } else if j == 1 {
        bl
    } else if j == 2 {
        tr
    } else if j == 3 {
        tr
    } else if j == 4 {
        bl
    } else {
        br
    }
}

/// Position in the index list of the `j`-th index of cell `(z, x)`; cells are
/// laid out row by row.
pub open spec fn corner_pos(res_w: nat, z: nat, x: nat, j: nat) -> int {
    (6 * (z * res_w + x) + j) as int
}

/// Number of vertices of a river grid.
pub open spec fn grid_vertex_count(res_l: nat, res_w: nat) -> nat {
    (res_l + 1) * (res_w + 1)
}

/// The grid's vertex indices stay within `u32`, as the index buffer holds `u32`.
pub open spec fn indices_fit_u32(res_l: nat, res_w: nat) -> bool {
    res_l == 0 || res_w == 0 || grid_vertex_count(res_l, res_w) <= 0x1_0000_0000
}

/// Zero-sized namespace for building the flat river surface.
pub struct RiverMesh;

proof fn lemma_earlier_cell(w: nat, z: nat, x: nat, z2: nat, x2: nat)
    requires
        (z2 < z && x2 < w) || (z2 == z && x2 < x),
    ensures
        z2 * w + x2 < z * w + x,
{
    if z2 < z {
        assert(z2 * w + x2 < z * w) by (nonlinear_arith)
            requires
                z2 < z,
                x2 < w,
        ;
    }
}

proof fn lemma_corner_bounds(l: nat, w: nat, z: nat, x: nat)
    requires
        z < l,
        x < w,
    ensures
        (z + 1) * (w + 1) + x + 1 < (l + 1) * (w + 1),
        z * (w + 1) + x < (z + 1) * (w + 1) + x,
        (z + 1) * (w + 1) == z * (w + 1) + w + 1,
{
    assert((z + 1) * (w + 1) + x + 1 < (l + 1) * (w + 1)) by (nonlinear_arith)
        requires
            z < l,
            x < w,
    ;
    assert((z + 1) * (w + 1) == z * (w + 1) + w + 1) by (nonlinear_arith);
}

/// Every index of the river's triangle list names an existing vertex: it is
/// below the number of grid vertices `(res_l + 1) * (res_w + 1)`.
pub proof fn lemma_indices_in_range(res_l: nat, res_w: nat, z: nat, x: nat, j: nat)
    requires
        z < res_l,
        x < res_w,
        j < 6,
    ensures
        quad_corner(res_w, z, x, j) < grid_vertex_count(res_l, res_w),
{
    lemma_corner_bounds(res_l, res_w, z, x);
}

/// Distinct grid points are distinct vertices: `grid_vertex` is one-to-one on
/// the grid.
pub proof fn lemma_grid_vertex_injective(res_w: nat, z1: nat, x1: nat, z2: nat, x2: nat)
    requires
        x1 <= res_w,
        x2 <= res_w,
        grid_vertex(res_w, z1, x1) == grid_vertex(res_w, z2, x2),
    ensures
        z1 == z2,
        x1 == x2,
{
    if z1 < z2 {
        lemma_earlier_cell(res_w + 1, z2, x2, z1, x1);
    } else if z2 < z1 {
        lemma_earlier_cell(res_w + 1, z1, x1, z2, x2);
    }
}

/// No triangle of the river is degenerate: the three corners of each of a
/// cell's two triangles are three different vertices.
pub proof fn lemma_triangles_non_degenerate(res_w: nat, z: nat, x: nat)
    requires
        x < res_w,
    ensures
        quad_corner(res_w, z, x, 0) != quad_corner(res_w, z, x, 1),
        quad_corner(res_w, z, x, 0) != quad_corner(res_w, z, x, 2),
        quad_corner(res_w, z, x, 1) != quad_corner(res_w, z, x, 2),
        quad_corner(res_w, z, x, 3) != quad_corner(res_w, z, x, 4),
        quad_corner(res_w, z, x, 3) != quad_corner(res_w, z, x, 5),
        quad_corner(res_w, z, x, 4) != quad_corner(res_w, z, x, 5),
{
    assert((z + 1) * (res_w + 1) == z * (res_w + 1) + res_w + 1) by (nonlinear_arith);
}

impl RiverMesh {
    /// The grid points of a river `res_l` cells long and `res_w` cells wide, in
    /// the order in which their vertices are emitted: row by row (`z`), and
    /// within a row column by column (`x`). Point `(z, x)` is vertex
    /// `z * (res_w + 1) + x`.
    pub fn grid_points(res_l: u32, res_w: u32) -> (r: Vec<(u32, u32)>)
        ensures
            r.len() == grid_vertex_count(res_l as nat, res_w as nat),
            forall|z: nat, x: nat|
                z <= res_l && x <= res_w ==> #[trigger] r@[grid_vertex(res_w as nat, z, x) as int]
                    == (z as u32, x as u32),
    {
        let mut points: Vec<(u32, u32)> = Vec::new();
        let w1: u64 = res_w as u64 + 1;
        let mut z: u64 = 0;
        while z <= res_l as u64
            invariant
                z <= res_l as u64 + 1,
                w1 == res_w + 1,
                points.len() == z * w1,
                forall|z2: nat, x2: nat|
                    z2 < z && x2 <= res_w ==> #[trigger] points@[grid_vertex(res_w as nat, z2, x2) as int]
                        == (z2 as u32, x2 as u32),
            decreases res_l as u64 + 1 - z,
        {
            let mut x: u64 = 0;
            while x <= res_w as u64
                invariant
                    z <= res_l as u64,
                    x <= w1,
                    w1 == res_w + 1,
                    points.len() == z * w1 + x,
                    forall|z2: nat, x2: nat|
                        (z2 < z && x2 <= res_w) || (z2 == z && x2 < x) ==>
                            #[trigger] points@[grid_vertex(res_w as nat, z2, x2) as int]
                            == (z2 as u32, x2 as u32),
                decreases w1 - x,
            {
                let ghost before = points@;
                points.push((z as u32, x as u32));
                assert forall|z2: nat, x2: nat|
                    (z2 < z && x2 <= res_w) || (z2 == z && x2 < x + 1) implies
                        #[trigger] points@[grid_vertex(res_w as nat, z2, x2) as int]
                        == (z2 as u32, x2 as u32) by {
                    if z2 == z && x2 == x {
                        assert(grid_vertex(res_w as nat, z2, x2) == z * w1 + x);
                    } else {
                        lemma_earlier_cell(res_w as nat + 1, z as nat, x as nat, z2, x2);
                        assert(grid_vertex(res_w as nat, z2, x2) < z * w1 + x);
                        assert(points@[grid_vertex(res_w as nat, z2, x2) as int]
                            == before[grid_vertex(res_w as nat, z2, x2) as int]);
                    }
                }
                x = x + 1;
            }
            assert((z + 1) * w1 == z * w1 + w1) by (nonlinear_arith);
            z = z + 1;
        }
        points
    }

    /// The triangle list of the river grid: for every cell, row by row, the two
    /// triangles `(tl, bl, tr)` and `(tr, bl, br)` of its corners.
    pub fn generate_indices(res_l: u32, res_w: u32) -> (r: Vec<u32>)
        requires
            indices_fit_u32(res_l as nat, res_w as nat),
        ensures
            r.len() == 6 * res_l * res_w,
            forall|z: nat, x: nat, j: nat|
                z < res_l && x < res_w && j < 6 ==> #[trigger] r@[corner_pos(res_w as nat, z, x, j)]
                    == quad_corner(res_w as nat, z, x, j),
    {
        let mut indices: Vec<u32> = Vec::new();
        let mut z: u32 = 0;
        while z < res_l
            invariant
                z <= res_l,
                indices_fit_u32(res_l as nat, res_w as nat),
                indices.len() == 6 * (z * res_w),
                forall|z2: nat, x2: nat, j: nat|
                    z2 < z && x2 < res_w && j < 6 ==>
                        #[trigger] indices@[corner_pos(res_w as nat, z2, x2, j)]
                        == quad_corner(res_w as nat, z2, x2, j),
            decreases res_l - z,
        {
            let mut x: u32 = 0;
            while x < res_w
                invariant
                    z < res_l,
                    x <= res_w,
                    indices_fit_u32(res_l as nat, res_w as nat),
                    indices.len() == 6 * (z * res_w + x),
                    forall|z2: nat, x2: nat, j: nat|
                        ((z2 < z && x2 < res_w) || (z2 == z && x2 < x)) && j < 6 ==>
                            #[trigger] indices@[corner_pos(res_w as nat, z2, x2, j)]
                            == quad_corner(res_w as nat, z2, x2, j),
                decreases res_w - x,
            {
                proof {
                    lemma_corner_bounds(res_l as nat, res_w as nat, z as nat, x as nat);
                }
                let tl = z * (res_w + 1) + x;
                let tr = tl + 1;
                let bl = (z + 1) * (res_w + 1) + x;
                let br = bl + 1;
                let ghost before = indices@;
                indices.push(tl);
                indices.push(bl);
                indices.push(tr);
                indices.push(tr);
                indices.push(bl);
                indices.push(br);
                assert forall|z2: nat, x2: nat, j: nat|
                    ((z2 < z && x2 < res_w) || (z2 == z && x2 < x + 1)) && j < 6 implies
                        #[trigger] indices@[corner_pos(res_w as nat, z2, x2, j)]
                        == quad_corner(res_w as nat, z2, x2, j) by {
                    if z2 == z && x2 == x {
                        assert(corner_pos(res_w as nat, z2, x2, j) == before.len() + j);
                    } else {
                        lemma_earlier_cell(res_w as nat, z as nat, x as nat, z2, x2);
                        assert(corner_pos(res_w as nat, z2, x2, j) < before.len());
                        assert(indices@[corner_pos(res_w as nat, z2, x2, j)]
                            == before[corner_pos(res_w as nat, z2, x2, j)]);
                    }
                }
                x = x + 1;
            }
            assert((z + 1) * res_w == z * res_w + res_w) by (nonlinear_arith);
            z = z + 1;
        }
        assert(6 * (res_l * res_w) == 6 * res_l * res_w) by (nonlinear_arith);
        indices
    }
}


/// The grid layout and the corners of a cell, in plain arithmetic: row `z`
/// starts at vertex `z * (res_w + 1)`; a cell's first triangle is its
/// top-left, bottom-left and top-right corners, its second the top-right,
/// bottom-left and bottom-right corners, the two sharing the diagonal.
pub proof fn lemma_quad_corners_explicit(res_w: nat, z: nat, x: nat)
    ensures
        grid_vertex(res_w, z, x) == z * (res_w + 1) + x,
        quad_corner(res_w, z, x, 0) == z * (res_w + 1) + x,
        quad_corner(res_w, z, x, 1) == (z + 1) * (res_w + 1) + x,
        quad_corner(res_w, z, x, 2) == z * (res_w + 1) + x + 1,
        quad_corner(res_w, z, x, 3) == z * (res_w + 1) + x + 1,
        quad_corner(res_w, z, x, 4) == (z + 1) * (res_w + 1) + x,
        quad_corner(res_w, z, x, 5) == (z + 1) * (res_w + 1) + x + 1,
        corner_pos(res_w, z, x, 0) == 6 * (z * res_w + x),
        grid_vertex_count(1, res_w) == 2 * (res_w + 1),
{
    assert((z + 1) * (res_w + 1) + x + 1 == (z + 1) * (res_w + 1) + (x + 1));
    assert(grid_vertex_count(1, res_w) == 2 * (res_w + 1)) by (nonlinear_arith);
}

} // verus!
