use vstd::prelude::*;
use vstd::arithmetic::div_mod::{lemma_fundamental_div_mod, lemma_div_pos_is_pos};

verus! {

/// Largest grid size whose segment count fits every `usize`.
pub const MAX_GRID_SIZE: u32 = 46_339;

/// Grid size (cells per edge) and spacing, in units of 10^10 m, for a camera
/// at `radius_m` metres: finer and denser near the black hole.
pub open spec fn grid_lod_spec(radius_m: u64) -> (u32, u32) {
    if radius_m < 150_000_000_000 {
        (25, 1)
    } else if radius_m < 500_000_000_000 {
        (13, 2)
    } else {
        (9, 4)
    }
}

/// Number of vertices of a grid with `g` cells per edge.
pub open spec fn vertex_count_spec(g: nat) -> nat {
    (g + 1) * (g + 1)
}

/// Position in the vertex list of the vertex in row `zi`, column `xi`.
pub open spec fn vertex_index(g: nat, zi: nat, xi: nat) -> nat {
    zi * (g + 1) + xi
}

/// Grid size and spacing (in units of 10^10 m) for a camera `radius_m`
/// metres from the origin.
pub fn grid_lod(radius_m: u64) -> (r: (u32, u32))
    ensures
        r == grid_lod_spec(radius_m),
        radius_m < 150_000_000_000 ==> r == (25u32, 1u32),
        150_000_000_000 <= radius_m < 500_000_000_000 ==> r == (13u32, 2u32),
        radius_m >= 500_000_000_000 ==> r == (9u32, 4u32),
{
    proof {
        lemma_lod_bands(radius_m);
    }
    if radius_m < 150_000_000_000 {
        (25, 1)
    } else if radius_m < 500_000_000_000 {
        (13, 2)
    } else {
        (9, 4)
    }
}

/// The level of detail in each distance band: 25 cells at 10^10 m below
/// 1.5 x 10^11 m, 13 cells at 2 x 10^10 m up to 5 x 10^11 m, 9 cells at
/// 4 x 10^10 m beyond.
pub proof fn lemma_lod_bands(radius_m: u64)
    ensures
        radius_m < 150_000_000_000 ==> grid_lod_spec(radius_m) == (25u32, 1u32),
        150_000_000_000 <= radius_m < 500_000_000_000 ==> grid_lod_spec(radius_m) == (13u32, 2u32),
        radius_m >= 500_000_000_000 ==> grid_lod_spec(radius_m) == (9u32, 4u32),
{
}

/// The closer the camera, the more cells and the narrower the spacing.
pub proof fn lemma_lod_finer_when_closer(near_m: u64, far_m: u64)
    requires
        near_m <= far_m,
    ensures
        grid_lod_spec(near_m).0 >= grid_lod_spec(far_m).0,
        grid_lod_spec(near_m).1 <= grid_lod_spec(far_m).1,
{
}

/// Number of vertices of a grid with `grid_size` cells per edge.
pub fn vertex_count(grid_size: u32) -> (r: usize)
    requires
        grid_size <= MAX_GRID_SIZE,
    ensures
        r == vertex_count_spec(grid_size as nat),
        r == (grid_size as int + 1) * (grid_size as int + 1),
{
    let count: usize = grid_size as usize + 1;
    assert(count * count <= 46_340 * 46_340) by (nonlinear_arith)
        requires count <= 46_340;
    count * count
}

/// Offsets, in grid spacings, of every vertex from the grid centre, row by
/// row: the vertex in row `zi`, column `xi` lies at
/// `(xi - grid_size / 2, zi - grid_size / 2)`.
pub fn vertex_offsets(grid_size: u32) -> (r: Vec<(i32, i32)>)
    requires
        grid_size <= MAX_GRID_SIZE,
    ensures
        r@.len() == vertex_count_spec(grid_size as nat),
        forall|zi: nat, xi: nat|
            zi <= grid_size && xi <= grid_size ==> #[trigger] r@[vertex_index(grid_size as nat, zi, xi) as int]
                == ((xi - grid_size / 2) as i32, (zi - grid_size / 2) as i32),
        forall|k: int|
            0 <= k < r@.len() ==> #[trigger] r@[k] == ((k % (grid_size as int + 1) - grid_size / 2) as i32, (k / (
            grid_size as int + 1) - grid_size / 2) as i32),
{
    let g: i32 = grid_size as i32;
    let half: i32 = g / 2;
    let ghost c: nat = (grid_size + 1) as nat;
    let ghost gn: nat = grid_size as nat;
    let mut r: Vec<(i32, i32)> = Vec::new();
    let mut zi: i32 = 0;
    while zi <= g
        invariant
            g == grid_size,
            g <= 46_339,
            half == g / 2,
            c == g + 1,
            gn == grid_size,
            0 <= zi <= g + 1,
            r@.len() == zi * c,
            forall|z: nat, x: nat|
                z < zi && x <= g ==> #[trigger] r@[vertex_index(gn, z, x) as int] == ((x - half) as i32, (z - half) as i32),
        decreases g + 1 - zi,
    {
        let mut xi: i32 = 0;
        while xi <= g
            invariant
                g == grid_size,
                g <= 46_339,
                half == g / 2,
                c == g + 1,
                gn == grid_size,
                0 <= zi <= g,
                0 <= xi <= g + 1,
                r@.len() == zi * c + xi,
                forall|z: nat, x: nat|
                    z < zi && x <= g ==> #[trigger] r@[vertex_index(gn, z, x) as int] == ((x - half) as i32, (z - half) as i32),
                forall|x: nat| x < xi ==> #[trigger] r@[vertex_index(gn, zi as nat, x) as int] == ((x - half) as i32, (zi - half) as i32),
            decreases g + 1 - xi,
        {
            proof {
                assert(vertex_index(gn, zi as nat, xi as nat) == r@.len());
                assert forall|z: nat, x: nat| z < zi && x <= g implies #[trigger] vertex_index(gn, z, x) < zi * c by {
                    assert(z * c + x < zi * c) by (nonlinear_arith)
                        requires z < zi, x <= g, c == g + 1, z >= 0;
                }
            }
            r.push((xi - half, zi - half));
            xi = xi + 1;
        }
        proof {
            assert forall|z: nat, x: nat| z < zi + 1 && x <= g implies #[trigger] r@[vertex_index(gn, z, x) as int]
                == ((x - half) as i32, (z - half) as i32) by {
                if z < zi {
                } else {
                    assert(z == zi);
                    assert(r@[vertex_index(gn, zi as nat, x) as int] == ((x - half) as i32, (zi - half) as i32));
                }
            }
            assert(r@.len() == (zi + 1) * c) by (nonlinear_arith)
                requires r@.len() == zi * c + (g + 1), c == g + 1;
        }
        zi = zi + 1;
    }
    proof {
        assert(r@.len() == vertex_count_spec(grid_size as nat));
        assert forall|k: int| 0 <= k < r@.len() implies #[trigger] r@[k] == ((k % (grid_size as int + 1) - grid_size
            / 2) as i32, (k / (grid_size as int + 1) - grid_size / 2) as i32) by {
            let cc: int = grid_size as int + 1;
            lemma_fundamental_div_mod(k, cc);
            let zi: int = k / cc;
            let xi: int = k % cc;
            assert(zi >= 0) by {
                if k > 0 {
                    lemma_div_pos_is_pos(k, cc);
                }
            }
            assert(zi < cc) by (nonlinear_arith)
                requires k == cc * zi + xi, 0 <= xi, k < cc * cc, zi >= 0, cc > 0;
            assert(vertex_index(gn, zi as nat, xi as nat) == k) by (nonlinear_arith)
                requires k == cc * zi + xi, cc == gn + 1, zi >= 0, xi >= 0;
            assert(r@[vertex_index(gn, zi as nat, xi as nat) as int] == ((xi - half) as i32, (zi - half) as i32));
        }
    }
    r
}

/// The segment from the vertex in row `zi`, column `xi` to its right-hand neighbour.
pub open spec fn row_segment(g: nat, zi: nat, xi: nat) -> (usize, usize) {
    (vertex_index(g, zi, xi) as usize, (vertex_index(g, zi, xi) + 1) as usize)
}

/// The segment from the vertex in row `zi`, column `xi` to the one in the next row.
pub open spec fn column_segment(g: nat, zi: nat, xi: nat) -> (usize, usize) {
    (vertex_index(g, zi, xi) as usize, vertex_index(g, zi + 1, xi) as usize)
}

/// Position in the segment list of the row segment starting at row `zi`, column `xi`.
pub open spec fn row_slot(g: nat, zi: nat, xi: nat) -> int {
    (zi * g + xi) as int
}

/// Position in the segment list of the column segment starting at row `zi`, column `xi`.
pub open spec fn column_slot(g: nat, zi: nat, xi: nat) -> int {
    (g * (g + 1) + vertex_index(g, zi, xi)) as int
}

/// Number of line segments of a grid with `g` cells per edge.
pub open spec fn segment_count_spec(g: nat) -> nat {
    2 * g * (g + 1)
}

/// The grid's line segments as pairs of vertex positions: first each row,
/// left to right and row by row, then each column link, row by row.
pub fn grid_segments(grid_size: u32) -> (r: Vec<(usize, usize)>)
    requires
        grid_size <= MAX_GRID_SIZE,
    ensures
        r@.len() == segment_count_spec(grid_size as nat),
        forall|zi: nat, xi: nat|
            zi <= grid_size && xi < grid_size ==> #[trigger] r@[row_slot(grid_size as nat, zi, xi)]
                == row_segment(grid_size as nat, zi, xi),
        forall|zi: nat, xi: nat|
            zi < grid_size && xi <= grid_size ==> #[trigger] r@[column_slot(grid_size as nat, zi, xi)]
                == column_segment(grid_size as nat, zi, xi),
        forall|k: int|
            0 <= k < grid_size * (grid_size + 1) ==> #[trigger] r@[k] == ((k + k / (grid_size as int)) as usize, (k
                + k / (grid_size as int) + 1) as usize),
        forall|k: int|
            0 <= k < grid_size * (grid_size + 1) ==> #[trigger] r@[grid_size * (grid_size + 1) + k] == (k as usize, (k
                + grid_size + 1) as usize),
{
    let g: usize = grid_size as usize;
    let count: usize = g + 1;
    let ghost gn: nat = grid_size as nat;
    assert(count * count <= 46_340 * 46_340) by (nonlinear_arith)
        requires count <= 46_340;
    let mut r: Vec<(usize, usize)> = Vec::new();
    let mut zi: usize = 0;
    while zi <= g
        invariant
            g == gn,
            gn == grid_size,
            g <= 46_339,
            count == g + 1,
            count * count <= 46_340 * 46_340,
            0 <= zi <= g + 1,
            r@.len() == zi * g,
            forall|z: nat, x: nat|
                z < zi && x < g ==> #[trigger] r@[row_slot(gn, z, x)] == row_segment(gn, z, x),
        decreases g + 1 - zi,
    {
        let mut xi: usize = 0;
        while xi < g
            invariant
                g == gn,
                gn == grid_size,
                g <= 46_339,
                count == g + 1,
                count * count <= 46_340 * 46_340,
                0 <= zi <= g,
                0 <= xi <= g,
                r@.len() == zi * g + xi,
                forall|z: nat, x: nat|
                    z < zi && x < g ==> #[trigger] r@[row_slot(gn, z, x)] == row_segment(gn, z, x),
                forall|x: nat| x < xi ==> #[trigger] r@[row_slot(gn, zi as nat, x)] == row_segment(gn, zi as nat, x),
            decreases g - xi,
        {
            proof {
                assert forall|z: nat, x: nat| z < zi && x < g implies #[trigger] row_slot(gn, z, x) < zi * g by {
                    assert(z * gn + x < zi * g) by (nonlinear_arith)
                        requires z < zi, x < g, gn == g, z >= 0;
                }
                assert(zi * count + xi + 1 < count * count) by (nonlinear_arith)
                    requires zi <= g, xi < g, count == g + 1;
            }
            proof {
                assert(vertex_index(gn, zi as nat, xi as nat) == zi * count + xi);
                assert(row_slot(gn, zi as nat, xi as nat) == r@.len());
            }
            let a: usize = zi * count + xi;
            r.push((a, a + 1));
            xi = xi + 1;
        }
        proof {
            assert forall|z: nat, x: nat| z < zi + 1 && x < g implies #[trigger] r@[row_slot(gn, z, x)]
                == row_segment(gn, z, x) by {
                if z == zi {
                    assert(r@[row_slot(gn, zi as nat, x)] == row_segment(gn, zi as nat, x));
                }
            }
            assert(r@.len() == (zi + 1) * g) by (nonlinear_arith)
                requires r@.len() == zi * g + g;
        }
        zi = zi + 1;
    }
    let ghost rows: int = r@.len() as int;
    proof {
        assert(rows == gn * (gn + 1)) by (nonlinear_arith)
            requires rows == (g + 1) * g, gn == g;
    }
    let mut zi: usize = 0;
    while zi < g
        invariant
            g == gn,
            gn == grid_size,
            g <= 46_339,
            count == g + 1,
            count * count <= 46_340 * 46_340,
            rows == gn * (gn + 1),
            0 <= zi <= g,
            r@.len() == rows + zi * count,
            forall|z: nat, x: nat|
                z <= gn && x < g ==> #[trigger] r@[row_slot(gn, z, x)] == row_segment(gn, z, x),
            forall|z: nat, x: nat|
                z < zi && x <= g ==> #[trigger] r@[column_slot(gn, z, x)] == column_segment(gn, z, x),
        decreases g - zi,
    {
        let mut xi: usize = 0;
        while xi <= g
            invariant
                g == gn,
                gn == grid_size,
                g <= 46_339,
                count == g + 1,
                count * count <= 46_340 * 46_340,
                rows == gn * (gn + 1),
                0 <= zi < g,
                0 <= xi <= g + 1,
                r@.len() == rows + zi * count + xi,
                forall|z: nat, x: nat|
                    z <= gn && x < g ==> #[trigger] r@[row_slot(gn, z, x)] == row_segment(gn, z, x),
                forall|z: nat, x: nat|
                    z < zi && x <= g ==> #[trigger] r@[column_slot(gn, z, x)] == column_segment(gn, z, x),
                forall|x: nat| x < xi ==> #[trigger] r@[column_slot(gn, zi as nat, x)] == column_segment(gn, zi as nat, x),
            decreases g + 1 - xi,
        {
            proof {
                assert forall|z: nat, x: nat| z <= gn && x < g implies #[trigger] row_slot(gn, z, x) < rows by {
                    assert(z * gn + x < gn * (gn + 1)) by (nonlinear_arith)
                        requires z <= gn, x < gn, z >= 0;
                }
                assert forall|z: nat, x: nat| z < zi && x <= g implies #[trigger] vertex_index(gn, z, x) < zi * count by {
                    assert(z * (gn + 1) + x < zi * count) by (nonlinear_arith)
                        requires z < zi, x <= gn, count == gn + 1, z >= 0;
                }
                assert(zi * count + xi + count < count * count) by (nonlinear_arith)
                    requires zi < g, xi <= g, count == g + 1;
                assert(rows + zi * count + xi < usize::MAX) by (nonlinear_arith)
                    requires rows == gn * (gn + 1), gn <= 46_339, zi < gn, xi <= gn, count == gn + 1;
            }
            proof {
                assert(vertex_index(gn, zi as nat, xi as nat) == zi * count + xi);
                assert(vertex_index(gn, (zi + 1) as nat, xi as nat) == zi * count + xi + count) by (nonlinear_arith)
                    requires count == gn + 1;
                assert(column_slot(gn, zi as nat, xi as nat) == r@.len());
            }
            let a: usize = zi * count + xi;
            r.push((a, a + count));
            xi = xi + 1;
        }
        proof {
            assert forall|z: nat, x: nat| z < zi + 1 && x <= g implies #[trigger] r@[column_slot(gn, z, x)]
                == column_segment(gn, z, x) by {
                if z == zi {
                    assert(r@[column_slot(gn, zi as nat, x)] == column_segment(gn, zi as nat, x));
                }
            }
            assert(zi * count + count == (zi + 1) * count) by (nonlinear_arith);
        }
        zi = zi + 1;
    }
    proof {
        assert(r@.len() == segment_count_spec(gn)) by (nonlinear_arith)
            requires r@.len() == rows + gn * (gn + 1), rows == gn * (gn + 1);
        let gi: int = grid_size as int;
        let cc: int = gi + 1;
        assert forall|k: int| 0 <= k < grid_size * (grid_size + 1) implies #[trigger] r@[k] == ((k + k / gi) as usize, (k
            + k / gi + 1) as usize) by {
            assert(gi > 0) by (nonlinear_arith)
                requires 0 <= k < gi * (gi + 1), gi >= 0;
            lemma_fundamental_div_mod(k, gi);
            let zi: int = k / gi;
            let xi: int = k % gi;
            assert(zi >= 0) by {
                if k > 0 {
                    lemma_div_pos_is_pos(k, gi);
                }
            }
            assert(zi <= gi) by (nonlinear_arith)
                requires k == gi * zi + xi, 0 <= xi, k < gi * (gi + 1), zi >= 0, gi > 0;
            assert(row_slot(gn, zi as nat, xi as nat) == k) by (nonlinear_arith)
                requires k == gi * zi + xi, gn == gi, zi >= 0, xi >= 0;
            assert(vertex_index(gn, zi as nat, xi as nat) == k + zi) by (nonlinear_arith)
                requires k == gi * zi + xi, gn == gi, zi >= 0, xi >= 0;
            assert(r@[row_slot(gn, zi as nat, xi as nat)] == row_segment(gn, zi as nat, xi as nat));
        }
        assert forall|k: int| 0 <= k < grid_size * (grid_size + 1) implies #[trigger] r@[grid_size * (grid_size + 1) + k]
            == (k as usize, (k + grid_size + 1) as usize) by {
            lemma_fundamental_div_mod(k, cc);
            let zi: int = k / cc;
            let xi: int = k % cc;
            assert(zi >= 0) by {
                if k > 0 {
                    lemma_div_pos_is_pos(k, cc);
                }
            }
            assert(zi < gi) by (nonlinear_arith)
                requires k == cc * zi + xi, 0 <= xi, k < gi * cc, zi >= 0, cc > 0;
            assert(vertex_index(gn, zi as nat, xi as nat) == k) by (nonlinear_arith)
                requires k == cc * zi + xi, cc == gn + 1, zi >= 0, xi >= 0;
            assert(vertex_index(gn, (zi + 1) as nat, xi as nat) == k + gi + 1) by (nonlinear_arith)
                requires k == cc * zi + xi, cc == gn + 1, gn == gi, zi >= 0, xi >= 0;
            assert(column_slot(gn, zi as nat, xi as nat) == grid_size * (grid_size + 1) + k);
            assert(r@[column_slot(gn, zi as nat, xi as nat)] == column_segment(gn, zi as nat, xi as nat));
        }
    }
    r
}

/// Every segment joins two vertices of the grid: both of its ends are valid
/// positions in the vertex list.
pub proof fn lemma_segments_within_grid(g: nat, zi: nat, xi: nat)
    requires
        g <= MAX_GRID_SIZE,
    ensures
        zi <= g && xi < g ==> (row_segment(g, zi, xi).1 as nat) < vertex_count_spec(g)
            && row_segment(g, zi, xi).1 == row_segment(g, zi, xi).0 + 1,
        zi < g && xi <= g ==> (column_segment(g, zi, xi).1 as nat) < vertex_count_spec(g)
            && column_segment(g, zi, xi).1 == column_segment(g, zi, xi).0 + g + 1,
{
    assert((g + 1) * (g + 1) <= 46_340 * 46_340) by (nonlinear_arith)
        requires g <= 46_339;
    if zi <= g && xi < g {
        assert(zi * (g + 1) + xi + 1 < (g + 1) * (g + 1)) by (nonlinear_arith)
            requires zi <= g, xi < g;
    }
    if zi < g && xi <= g {
        assert((zi + 1) * (g + 1) + xi < (g + 1) * (g + 1)) by (nonlinear_arith)
            requires zi < g, xi <= g;
        assert((zi + 1) * (g + 1) + xi == zi * (g + 1) + xi + g + 1) by (nonlinear_arith);
    }
}

/// Whether the cached grid vertices must be recomputed: when the objects
/// moved, nothing is cached yet, or the cache holds another grid size.
pub open spec fn needs_rebuild_spec(objects_changed: bool, cached_vertices: nat, cached_size: u32, grid_size: u32) -> bool {
    objects_changed || cached_vertices == 0 || cached_size != grid_size
}

/// Whether the cached grid vertices must be recomputed before drawing.
pub fn grid_needs_rebuild(objects_changed: bool, cached_vertices: usize, cached_size: u32, grid_size: u32) -> (r: bool)
    ensures
        r == needs_rebuild_spec(objects_changed, cached_vertices as nat, cached_size, grid_size),
        !r <==> (!objects_changed && cached_vertices > 0 && cached_size == grid_size),
{
    objects_changed || cached_vertices == 0 || cached_size != grid_size
}

/// A freshly built cache is reused until the objects move or the level of
/// detail changes; an empty cache is always built.
pub proof fn lemma_cache_reused_until_change(grid_size: u32, next_size: u32, objects_changed: bool, cached_size: u32)
    ensures
        needs_rebuild_spec(objects_changed, vertex_count_spec(grid_size as nat), grid_size, next_size)
            <==> (objects_changed || next_size != grid_size),
        needs_rebuild_spec(objects_changed, 0, cached_size, next_size),
{
    assert(vertex_count_spec(grid_size as nat) > 0) by (nonlinear_arith)
        requires vertex_count_spec(grid_size as nat) == (grid_size + 1) * (grid_size + 1);
}

} // verus!
