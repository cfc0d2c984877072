use vstd::prelude::*;

verus! {

/// The latitude/longitude grid of a UV sphere: `width_segments` around,
/// `height_segments` from the start of the polar range to its end. Its
/// vertices are numbered row by row, `width_segments + 1` to a row (the
/// seam is doubled), so that they can be laid out by any parametrisation.
#[derive(Clone, Copy, Debug, PartialEq, Eq, Structural)]
pub struct SphereGrid {
    pub width_segments: u32,
    pub height_segments: u32,
}

pub open spec fn spec_clamp_min(x: i32, min: i32) -> int {
    if x < min {
        min as int
    } else {
        x as int
    }
}

impl SphereGrid {
    /// At least 3 segments around and 2 from pole to pole, and few enough
    /// vertices that each has a 16-bit index.
    pub open spec fn wf(self) -> bool {
        &&& self.width_segments >= 3
        &&& self.height_segments >= 2
        &&& self.spec_vertex_count() <= 0x1_0000
    }

    pub open spec fn spec_vertex_count(self) -> int {
        (self.width_segments + 1) * (self.height_segments + 1)
    }

    /// The number of the vertex in row `iy`, column `ix`.
    pub open spec fn spec_vertex_index(self, iy: int, ix: int) -> int {
        iy * (self.width_segments + 1) + ix
    }

    /// Whether the quad in row `iy` keeps its upper and its lower triangle:
    /// the first row loses its upper one where the range starts at the pole,
    /// the last row its lower one where the range ends at the other.
    pub open spec fn keeps_upper(self, iy: int, open_start: bool) -> bool {
        iy != 0 || open_start
    }

    pub open spec fn keeps_lower(self, iy: int, open_end: bool) -> bool {
        iy != self.height_segments - 1 || open_end
    }

    /// The triangles of the quad in row `iy`, column `ix`, with corners
    /// a (top right), b (top left), c (bottom left), d (bottom right):
    /// (a, b, d) and (b, c, d), each where it is kept.
    pub open spec fn spec_quad(self, iy: int, ix: int, open_start: bool, open_end: bool) -> Seq<u16> {
        let a = self.spec_vertex_index(iy, ix + 1) as u16;
        let b = self.spec_vertex_index(iy, ix) as u16;
        let c = self.spec_vertex_index(iy + 1, ix) as u16;
        let d = self.spec_vertex_index(iy + 1, ix + 1) as u16;
        (if self.keeps_upper(iy, open_start) {
            seq![a, b, d]
        } else {
            seq![]
        }) + (if self.keeps_lower(iy, open_end) {
            seq![b, c, d]
        } else {
            seq![]
        })
    }

    /// The first `n` quads of row `iy`.
    pub open spec fn spec_row(self, iy: int, n: nat, open_start: bool, open_end: bool) -> Seq<u16>
        decreases n,
    {
        if n == 0 {
            seq![]
        } else {
            self.spec_row(iy, (n - 1) as nat, open_start, open_end) + self.spec_quad(
                iy,
                n - 1,
                open_start,
                open_end,
            )
        }
    }

    /// The first `n` rows.
    pub open spec fn spec_rows(self, n: nat, open_start: bool, open_end: bool) -> Seq<u16>
        decreases n,
    {
        if n == 0 {
            seq![]
        } else {
            self.spec_rows((n - 1) as nat, open_start, open_end) + self.spec_row(
                n - 1,
                self.width_segments as nat,
                open_start,
                open_end,
            )
        }
    }

    pub open spec fn spec_indices(self, open_start: bool, open_end: bool) -> Seq<u16> {
        self.spec_rows(self.height_segments as nat, open_start, open_end)
    }

    /// Two triangles per quad, less one per quad of a row that touches a pole.
    pub open spec fn spec_index_count(self, open_start: bool, open_end: bool) -> int {
        6 * self.width_segments * self.height_segments
            - (if open_start { 0 } else { 3 * self.width_segments })
            - (if open_end { 0 } else { 3 * self.width_segments })
    }

    /// The grid for the given segment counts, raised to at least 3 around
    /// and 2 from pole to pole.
    pub fn new(width_segments: i32, height_segments: i32) -> (r: SphereGrid)
        requires
            (spec_clamp_min(width_segments, 3) + 1) * (spec_clamp_min(height_segments, 2) + 1)
                <= 0x1_0000,
        ensures
            r.width_segments == spec_clamp_min(width_segments, 3),
            r.height_segments == spec_clamp_min(height_segments, 2),
            r.wf(),
    {
        let w = if width_segments < 3 { 3 } else { width_segments };
        let h = if height_segments < 2 { 2 } else { height_segments };
        SphereGrid { width_segments: w as u32, height_segments: h as u32 }
    }

    proof fn lemma_wf_bounds(self)
        requires
            self.wf(),
        ensures
            self.width_segments < 0x1_0000,
            self.height_segments < 0x1_0000,
            self.spec_vertex_count() == (self.width_segments + 1) * (self.height_segments + 1),
    {
        let w1 = self.width_segments + 1;
        let h1 = self.height_segments + 1;
        assert(w1 <= w1 * h1 && h1 <= w1 * h1) by (nonlinear_arith)
            requires
                w1 >= 1,
                h1 >= 1,
        ;
    }

    /// The number of vertices: one per grid point, (w + 1) * (h + 1).
    pub fn vertex_count(&self) -> (r: usize)
        requires
            self.wf(),
        ensures
            r == self.spec_vertex_count(),
    {
        proof {
            self.lemma_wf_bounds();
        }
        ((self.width_segments + 1) * (self.height_segments + 1)) as usize
    }

    /// The number of the vertex in row `iy`, column `ix`.
    pub fn vertex_index(&self, iy: u32, ix: u32) -> (r: u16)
        requires
            self.wf(),
            iy <= self.height_segments,
            ix <= self.width_segments,
        ensures
            r == self.spec_vertex_index(iy as int, ix as int),
            r < self.spec_vertex_count(),
    {
        proof {
            self.lemma_wf_bounds();
            self.lemma_vertex_index_bound(iy as int, ix as int);
            let w1 = self.width_segments + 1;
            assert(iy * w1 <= iy * w1 + ix);
        }
        (iy * (self.width_segments + 1) + ix) as u16
    }

    proof fn lemma_vertex_index_bound(self, iy: int, ix: int)
        requires
            self.wf(),
            0 <= iy <= self.height_segments,
            0 <= ix <= self.width_segments,
        ensures
            0 <= self.spec_vertex_index(iy, ix) < self.spec_vertex_count(),
    {
        let w1 = self.width_segments + 1;
        let h = self.height_segments as int;
        assert(iy * w1 <= h * w1) by (nonlinear_arith)
            requires
                0 <= iy <= h,
                w1 > 0,
        ;
        assert((h + 1) * w1 == h * w1 + w1) by (nonlinear_arith);
        assert(0 <= iy * w1) by (nonlinear_arith)
            requires
                0 <= iy,
                w1 > 0,
        ;
    }

    /// The triangles of the grid, row by row and quad by quad, with the
    /// degenerate triangles at a pole left out: `open_start` says that the
    /// polar range starts below the first pole, `open_end` that it ends
    /// before the second.
    pub fn indices(&self, open_start: bool, open_end: bool) -> (r: Vec<u16>)
        requires
            self.wf(),
        ensures
            r@ == self.spec_indices(open_start, open_end),
            r@.len() == self.spec_index_count(open_start, open_end),
            forall|i: int| 0 <= i < r@.len() ==> r@[i] < self.spec_vertex_count(),
    {
        let mut indices: Vec<u16> = Vec::new();
        let ws = self.width_segments;
        let hs = self.height_segments;
        for iy in 0..hs
            invariant
                self.wf(),
                ws == self.width_segments,
                hs == self.height_segments,
                indices@ == self.spec_rows(iy as nat, open_start, open_end),
                forall|i: int| 0 <= i < indices@.len() ==> indices@[i] < self.spec_vertex_count(),
        {
            let ghost done = indices@;
            for ix in 0..ws
                invariant
                    self.wf(),
                    ws == self.width_segments,
                    hs == self.height_segments,
                    iy < hs,
                    indices@ == done + self.spec_row(iy as int, ix as nat, open_start, open_end),
                    forall|i: int|
                        0 <= i < indices@.len() ==> indices@[i] < self.spec_vertex_count(),
            {
                let ghost before = indices@;
                self.push_quad(&mut indices, iy, ix, open_start, open_end);
                assert(indices@ =~= done + self.spec_row(iy as int, (ix + 1) as nat, open_start, open_end));
                assert forall|i: int| 0 <= i < indices@.len() implies indices@[i] < self.spec_vertex_count() by {
                    if i >= before.len() {
                        assert(indices@[i] == self.spec_quad(iy as int, ix as int, open_start, open_end)[i - before.len()]);
                    }
                }
            }
            assert(indices@ =~= self.spec_rows((iy + 1) as nat, open_start, open_end));
        }
        proof {
            self.lemma_rows_len(hs as nat, open_start, open_end);
        }
        indices
    }

    /// Appends the kept triangles of the quad in row `iy`, column `ix`.
    fn push_quad(&self, indices: &mut Vec<u16>, iy: u32, ix: u32, open_start: bool, open_end: bool)
        requires
            self.wf(),
            iy < self.height_segments,
            ix < self.width_segments,
        ensures
            final(indices)@ == old(indices)@ + self.spec_quad(iy as int, ix as int, open_start, open_end),
            forall|i: int|
                0 <= i < self.spec_quad(iy as int, ix as int, open_start, open_end).len()
                    ==> self.spec_quad(iy as int, ix as int, open_start, open_end)[i] < self.spec_vertex_count(),
    {
        let a = self.vertex_index(iy, ix + 1);
        let b = self.vertex_index(iy, ix);
        let c = self.vertex_index(iy + 1, ix);
        let d = self.vertex_index(iy + 1, ix + 1);
        if iy != 0 || open_start {
            indices.push(a);
            indices.push(b);
            indices.push(d);
        }
        if iy != self.height_segments - 1 || open_end {
            indices.push(b);
            indices.push(c);
            indices.push(d);
        }
        assert(indices@ =~= old(indices)@ + self.spec_quad(iy as int, ix as int, open_start, open_end));
    }

    /// The number of indices that a quad of row `iy` contributes.
    pub open spec fn spec_quad_len(self, iy: int, open_start: bool, open_end: bool) -> int {
        (if self.keeps_upper(iy, open_start) {
            3int
        } else {
            0int
        }) + (if self.keeps_lower(iy, open_end) {
            3int
        } else {
            0int
        })
    }

    proof fn lemma_row_len(self, iy: int, n: nat, open_start: bool, open_end: bool)
        ensures
            self.spec_row(iy, n, open_start, open_end).len() == n * self.spec_quad_len(
                iy,
                open_start,
                open_end,
            ),
        decreases n,
    {
        let q = self.spec_quad_len(iy, open_start, open_end);
        if n > 0 {
            self.lemma_row_len(iy, (n - 1) as nat, open_start, open_end);
            assert(self.spec_quad(iy, n - 1, open_start, open_end).len() == q);
            assert((n - 1) * q + q == n * q) by (nonlinear_arith);
        } else {
            assert(n * q == 0) by (nonlinear_arith)
                requires
                    n == 0,
            ;
        }
    }

    /// The rows before row `n` lose a triangle per quad in the first row
    /// (at the first pole) and, once `n` reaches the last row, in it too.
    proof fn lemma_rows_len(self, n: nat, open_start: bool, open_end: bool)
        requires
            self.wf(),
            n <= self.height_segments,
        ensures
            self.spec_rows(n, open_start, open_end).len() == 6 * self.width_segments * n - (
            if n > 0 && !open_start {
                3 * self.width_segments
            } else {
                0
            }) - (if n == self.height_segments && !open_end {
                3 * self.width_segments
            } else {
                0
            }),
        decreases n,
    {
        let w = self.width_segments as int;
        if n > 0 {
            self.lemma_rows_len((n - 1) as nat, open_start, open_end);
            self.lemma_row_len(n - 1, w as nat, open_start, open_end);
            assert(6 * w * n == 6 * w * (n - 1) + 6 * w) by (nonlinear_arith);
            assert(w * 6 == 6 * w && w * 3 == 3 * w && w * 0 == 0) by (nonlinear_arith);
            let q = self.spec_quad_len(n - 1, open_start, open_end);
            assert(w * q == 6 * w || w * q == 3 * w || w * q == 0) by (nonlinear_arith)
                requires
                    q == 6 || q == 3 || q == 0,
            ;
            assert(self.spec_rows(n, open_start, open_end).len() == self.spec_rows(
                (n - 1) as nat,
                open_start,
                open_end,
            ).len() + w * q);
            if n - 1 == 0 {
                assert(n - 1 != self.height_segments - 1);
            }
        } else {
            assert(6 * w * n == 0) by (nonlinear_arith)
                requires
                    n == 0,
            ;
        }
    }
}

} // verus!
