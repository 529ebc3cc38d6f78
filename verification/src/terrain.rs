use vstd::prelude::*;

verus! {

/// The offset that a terrain query visits at step `k`: the 27 offsets of
/// {-1, 0, 1}^3, with the x offset changing slowest and the z offset
/// fastest.
pub open spec fn offset_at(k: int) -> (int, int, int) {
    (k / 9 - 1, (k / 3) % 3 - 1, k % 3 - 1)
}

/// The offsets, in whole units, from the player's position at which a
/// terrain query samples the ground: every combination of -1, 0 and 1 on
/// the three axes, x outermost and z innermost.
pub fn neighbor_offsets() -> (v: Vec<(i8, i8, i8)>)
    ensures
        v@.len() == 27,
        forall|k: int|
            0 <= k < 27 ==> {
                let (a, b, c) = #[trigger] v@[k];
                (a as int, b as int, c as int) == offset_at(k)
            },
{
    let mut v: Vec<(i8, i8, i8)> = Vec::new();
    let mut x: i8 = -1;
    while x < 2
        invariant
            -1 <= x <= 2,
            v@.len() == 9 * (x + 1),
            forall|k: int|
                0 <= k < v@.len() ==> {
                    let (a, b, c) = #[trigger] v@[k];
                    (a as int, b as int, c as int) == offset_at(k)
                },
        decreases 2 - x,
    {
        let mut y: i8 = -1;
        while y < 2
            invariant
                -1 <= x < 2,
                -1 <= y <= 2,
                v@.len() == 9 * (x + 1) + 3 * (y + 1),
                forall|k: int|
                    0 <= k < v@.len() ==> {
                        let (a, b, c) = #[trigger] v@[k];
                        (a as int, b as int, c as int) == offset_at(k)
                    },
            decreases 2 - y,
        {
            let mut z: i8 = -1;
            while z < 2
                invariant
                    -1 <= x < 2,
                    -1 <= y < 2,
                    -1 <= z <= 2,
                    v@.len() == 9 * (x + 1) + 3 * (y + 1) + (z + 1),
                    forall|k: int|
                        0 <= k < v@.len() ==> {
                            let (a, b, c) = #[trigger] v@[k];
                            (a as int, b as int, c as int) == offset_at(k)
                        },
                decreases 2 - z,
            {
                let ghost k: int = v@.len() as int;
                assert(offset_at(k) == (x as int, y as int, z as int));
                v.push((x, y, z));
                z = z + 1;
            }
            y = y + 1;
        }
        x = x + 1;
    }
    v
}

/// Every offset of {-1, 0, 1}^3 is visited, at exactly one step.
pub proof fn lemma_offsets_cover_cube(a: int, b: int, c: int)
    requires
        -1 <= a <= 1,
        -1 <= b <= 1,
        -1 <= c <= 1,
    ensures
        offset_at(9 * (a + 1) + 3 * (b + 1) + (c + 1)) == (a, b, c),
        forall|k: int| 0 <= k < 27 && #[trigger] offset_at(k) == (a, b, c) ==> k == 9 * (a + 1) + 3 * (b + 1) + (c + 1),
{
    assert forall|k: int| 0 <= k < 27 && #[trigger] offset_at(k) == (a, b, c) implies k == 9 * (a + 1) + 3 * (b + 1) + (c + 1) by {
        assert(k == 9 * (k / 9) + 3 * ((k / 3) % 3) + k % 3);
    }
}

/// The positions, in a height map of `size` by `size` samples stored row by
/// row along x, of the four samples at the corners of the cell whose lowest
/// corner is (`ix`, `iz`).
pub struct CellSamples {
    /// The sample at (`ix`, `iz`).
    pub here: usize,
    /// The sample at (`ix`, `iz` + 1).
    pub next_z: usize,
    /// The sample at (`ix` + 1, `iz`).
    pub next_x: usize,
    /// The sample at (`ix` + 1, `iz` + 1).
    pub next_xz: usize,
}

/// The position of sample (`x`, `z`) in a height map `size` samples wide.
pub open spec fn sample_index(size: int, x: int, z: int) -> int {
    size * x + z
}

/// The four corner samples of cell (`ix`, `iz`). The positions are computed
/// in `i32`, so they must fit in it.
pub fn cell_samples(size: i32, ix: i32, iz: i32) -> (c: CellSamples)
    requires
        1 <= size,
        0 <= ix,
        0 <= iz,
        size * (ix + 1) + iz + 1 <= i32::MAX,
    ensures
        c.here == sample_index(size as int, ix as int, iz as int),
        c.next_z == sample_index(size as int, ix as int, iz + 1),
        c.next_x == sample_index(size as int, ix + 1, iz as int),
        c.next_xz == sample_index(size as int, ix + 1, iz + 1),
{
    assert(0 <= size * ix <= size * (ix + 1) && ix + 1 <= size * (ix + 1)) by (nonlinear_arith)
        requires
            1 <= size,
            0 <= ix,
    ;
    let row: i32 = size * ix;
    let next_row: i32 = size * (1 + ix);
    CellSamples {
        here: (row + iz) as usize,
        next_z: (row + iz + 1) as usize,
        next_x: (next_row + iz) as usize,
        next_xz: (next_row + iz + 1) as usize,
    }
}

/// For a cell inside the map (both corners' coordinates below `size`), the
/// four samples are distinct positions of a `size` by `size` map, and they
/// form a two by two block: z neighbours are adjacent, x neighbours one row
/// apart.
pub proof fn lemma_cell_inside_map(size: int, ix: int, iz: int)
    requires
        0 <= ix,
        0 <= iz,
        ix + 1 < size,
        iz + 1 < size,
    ensures
        0 <= sample_index(size, ix, iz),
        sample_index(size, ix + 1, iz + 1) < size * size,
        sample_index(size, ix, iz + 1) == sample_index(size, ix, iz) + 1,
        sample_index(size, ix + 1, iz) == sample_index(size, ix, iz) + size,
        sample_index(size, ix + 1, iz + 1) == sample_index(size, ix + 1, iz) + 1,
{
    assert(size * (ix + 1) == size * ix + size) by (nonlinear_arith);
    assert(0 <= size * ix) by (nonlinear_arith)
        requires
            0 <= ix,
            0 <= size,
    ;
    assert(size * (ix + 1) <= size * (size - 1)) by (nonlinear_arith)
        requires
            ix + 1 <= size - 1,
            0 <= size,
    ;
    assert(size * (size - 1) == size * size - size) by (nonlinear_arith);
}

} // verus!
