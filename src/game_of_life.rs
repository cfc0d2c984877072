use vstd::prelude::*;

verus! {

#[derive(Clone, Copy, Debug, PartialEq, Eq, Structural)]
pub enum Cell {
    Dead,
    Alive,
}

/// Conway's rules: a live cell with two or three live neighbours lives on,
/// any other live cell dies; a dead cell with exactly three comes alive.
pub open spec fn spec_next_cell(cell: Cell, live_neighbors: int) -> Cell {
    match cell {
        Cell::Alive => if live_neighbors == 2 || live_neighbors == 3 {
            Cell::Alive
        } else {
            Cell::Dead
        },
        Cell::Dead => if live_neighbors == 3 {
            Cell::Alive
        } else {
            Cell::Dead
        },
    }
}

/// The cell at position `i` of a new universe: alive where `i` is even or
/// a multiple of 7.
pub open spec fn spec_initial_cell(i: int) -> Cell {
    if i % 2 == 0 || i % 7 == 0 {
        Cell::Alive
    } else {
        Cell::Dead
    }
}

/// A grid of cells on a torus, stored row by row.
pub struct Universe {
    pub width: u32,
    pub height: u32,
    pub cells: Vec<Cell>,
}

impl Universe {
    pub open spec fn wf(&self) -> bool {
        &&& self.width * self.height <= u32::MAX
        &&& self.cells@.len() == self.width * self.height
    }

    pub open spec fn spec_index(&self, row: int, column: int) -> int {
        row * self.width + column
    }

    /// 1 where the cell at (row, column) is alive, else 0; rows and columns
    /// wrap around the edges.
    pub open spec fn alive_at(&self, row: int, column: int) -> int {
        let r = row % (self.height as int);
        let c = column % (self.width as int);
        if self.cells@[self.spec_index(r, c)] == Cell::Alive {
            1
        } else {
            0
        }
    }

    /// The row offsets that the count visits: height - 1 (one row up, once
    /// it wraps), 0 and 1; the column offsets likewise.
    pub open spec fn row_offset(&self, i: int) -> int {
        if i == 0 {
            self.height - 1
        } else if i == 1 {
            0
        } else {
            1
        }
    }

    pub open spec fn col_offset(&self, j: int) -> int {
        if j == 0 {
            self.width - 1
        } else if j == 1 {
            0
        } else {
            1
        }
    }

    /// The neighbour at offsets `i`, `j`, unless both offsets are zero.
    pub open spec fn offset_term(&self, row: int, column: int, i: int, j: int) -> int {
        if self.row_offset(i) == 0 && self.col_offset(j) == 0 {
            0
        } else {
            self.alive_at(row + self.row_offset(i), column + self.col_offset(j))
        }
    }

    /// The first `k` terms of the count, with i = k / 3 and j = k % 3.
    pub open spec fn spec_partial_count(&self, row: int, column: int, k: int) -> int
        decreases k,
    {
        if k <= 0 {
            0
        } else {
            self.spec_partial_count(row, column, k - 1) + self.offset_term(
                row,
                column,
                (k - 1) / 3,
                (k - 1) % 3,
            )
        }
    }

    /// The live cells around (row, column) over every pair of offsets but
    /// the two zeros (see `lemma_live_neighbors_on_torus` for grids at least
    /// 2 cells wide and high).
    pub open spec fn spec_live_neighbors(&self, row: int, column: int) -> int {
        self.spec_partial_count(row, column, 9)
    }

    /// The live cells among the eight around (row, column) on the torus.
    pub open spec fn spec_torus_neighbors(&self, row: int, column: int) -> int {
        self.alive_at(row - 1, column - 1) + self.alive_at(row - 1, column) + self.alive_at(
            row - 1,
            column + 1,
        ) + self.alive_at(row, column - 1) + self.alive_at(row, column + 1) + self.alive_at(
            row + 1,
            column - 1,
        ) + self.alive_at(row + 1, column) + self.alive_at(row + 1, column + 1)
    }

    /// On a grid at least 2 cells wide and high, the count is the number of
    /// live cells among the eight neighbours on the torus.
    pub proof fn lemma_live_neighbors_on_torus(&self, row: int, column: int)
        requires
            self.width >= 2,
            self.height >= 2,
        ensures
            self.spec_live_neighbors(row, column) == self.spec_torus_neighbors(row, column),
    {
        reveal_with_fuel(Universe::spec_partial_count, 10);
        vstd::arithmetic::div_mod::lemma_mod_add_multiples_vanish(row - 1, self.height as int);
        vstd::arithmetic::div_mod::lemma_mod_add_multiples_vanish(column - 1, self.width as int);
    }

    /// A universe of `width` by `height` cells in the starting pattern.
    pub fn new(width: u32, height: u32) -> (r: Universe)
        requires
            width * height <= u32::MAX,
        ensures
            r.wf(),
            r.width == width,
            r.height == height,
            forall|i: int| 0 <= i < r.cells@.len() ==> r.cells@[i] == spec_initial_cell(i),
    {
        let n = width * height;
        let mut cells: Vec<Cell> = Vec::new();
        for i in 0..n
            invariant
                cells@.len() == i,
                forall|j: int| 0 <= j < i ==> cells@[j] == spec_initial_cell(j),
        {
            cells.push(if i % 2 == 0 || i % 7 == 0 { Cell::Alive } else { Cell::Dead });
        }
        Universe { width, height, cells }
    }

    /// Every cell moves on by one generation, all at once.
    pub fn tick(&mut self)
        requires
            old(self).wf(),
        ensures
            final(self).wf(),
            final(self).width == old(self).width,
            final(self).height == old(self).height,
            forall|i: int|
                0 <= i < final(self).cells@.len() ==> final(self).cells@[i] == spec_next_cell(
                    old(self).cells@[i],
                    old(self).spec_live_neighbors(i / old(self).width as int, i % old(self).width as int),
                ),
    {
        let mut next: Vec<Cell> = Vec::new();
        let ghost total = self.width * self.height;
        assert(0 * self.width == 0);
        for row in 0..self.height
            invariant
                self.wf(),
                total == self.width * self.height,
                next@.len() == row * self.width,
                next@.len() <= self.cells@.len(),
                forall|i: int|
                    0 <= i < next@.len() ==> next@[i] == spec_next_cell(
                        self.cells@[i],
                        self.spec_live_neighbors(i / self.width as int, i % self.width as int),
                    ),
        {
            for col in 0..self.width
                invariant
                    self.wf(),
                    row < self.height,
                    next@.len() == row * self.width + col,
                    next@.len() <= self.cells@.len(),
                    forall|i: int|
                        0 <= i < next@.len() ==> next@[i] == spec_next_cell(
                            self.cells@[i],
                            self.spec_live_neighbors(i / self.width as int, i % self.width as int),
                        ),
            {
                proof {
                    self.lemma_index_in_range(row as int, col as int);
                }
                let idx = self.get_index(row, col);
                let cell = self.cells[idx];
                let live_neighbors = self.live_neighbor_count(row, col);
                let next_cell = match cell {
                    Cell::Alive => if live_neighbors < 2 {
                        Cell::Dead
                    } else if live_neighbors == 2 || live_neighbors == 3 {
                        Cell::Alive
                    } else {
                        Cell::Dead
                    },
                    Cell::Dead => if live_neighbors == 3 {
                        Cell::Alive
                    } else {
                        Cell::Dead
                    },
                };
                proof {
                    vstd::arithmetic::div_mod::lemma_fundamental_div_mod_converse(
                        idx as int,
                        self.width as int,
                        row as int,
                        col as int,
                    );
                }
                next.push(next_cell);
            }
            assert((row + 1) * self.width == row * self.width + self.width) by (nonlinear_arith);
        }
        assert(self.height * self.width == self.width * self.height) by (nonlinear_arith);
        self.cells = next;
    }

    proof fn lemma_index_in_range(&self, row: int, column: int)
        requires
            self.wf(),
            0 <= row < self.height,
            0 <= column < self.width,
        ensures
            0 <= self.spec_index(row, column) < self.width * self.height,
    {
        let w = self.width as int;
        let h = self.height as int;
        assert(0 <= row * w + column < w * h) by (nonlinear_arith)
            requires
                0 <= row < h,
                0 <= column < w,
        ;
    }

    fn get_index(&self, row: u32, column: u32) -> (r: usize)
        requires
            self.wf(),
            row < self.height,
            column < self.width,
        ensures
            r == self.spec_index(row as int, column as int),
            r < self.cells@.len(),
    {
        proof {
            self.lemma_index_in_range(row as int, column as int);
        }
        (row * self.width + column) as usize
    }

    /// The live cells among the eight around (row, column), counted with
    /// the offsets height - 1, 0, 1 (and width - 1, 0, 1), which wrap.
    fn live_neighbor_count(&self, row: u32, column: u32) -> (r: u8)
        requires
            self.wf(),
            row < self.height,
            column < self.width,
        ensures
            r == self.spec_live_neighbors(row as int, column as int),
    {
        let mut count: u8 = 0;
        let delta_rows: [u32; 3] = [self.height - 1, 0, 1];
        let delta_cols: [u32; 3] = [self.width - 1, 0, 1];
        for i in 0usize..3
            invariant
                self.wf(),
                row < self.height,
                column < self.width,
                delta_rows@ == seq![(self.height - 1) as u32, 0u32, 1u32],
                delta_cols@ == seq![(self.width - 1) as u32, 0u32, 1u32],
                count == self.spec_partial_count(row as int, column as int, 3 * i),
                count <= 3 * i,
        {
            for j in 0usize..3
                invariant
                    self.wf(),
                    row < self.height,
                    column < self.width,
                    i < 3,
                    delta_rows@ == seq![(self.height - 1) as u32, 0u32, 1u32],
                    delta_cols@ == seq![(self.width - 1) as u32, 0u32, 1u32],
                    count == self.spec_partial_count(row as int, column as int, 3 * i + j),
                    count <= 3 * i + j,
            {
                proof {
                    vstd::arithmetic::div_mod::lemma_fundamental_div_mod_converse(
                        (3 * i + j) as int,
                        3,
                        i as int,
                        j as int,
                    );
                }
                let delta_row = delta_rows[i];
                let delta_col = delta_cols[j];
                if !(delta_row == 0 && delta_col == 0) {
                    let neighbor_row = ((row as u64 + delta_row as u64) % self.height as u64) as u32;
                    let neighbor_col = ((column as u64 + delta_col as u64) % self.width as u64) as u32;
                    let idx = self.get_index(neighbor_row, neighbor_col);
                    if self.cells[idx] == Cell::Alive {
                        count += 1;
                    }
                }
            }
        }
        count
    }

}

/// A segment from (x0, y0) to (x1, y1), in pixels.
#[derive(Clone, Copy, Debug, PartialEq, Eq, Structural)]
pub struct Line {
    pub x0: u32,
    pub y0: u32,
    pub x1: u32,
    pub y1: u32,
}

/// A square of `size` pixels with its top left corner at (x, y), filled in
/// the colour of `cell`.
#[derive(Clone, Copy, Debug, PartialEq, Eq, Structural)]
pub struct CellRect {
    pub x: u32,
    pub y: u32,
    pub size: u32,
    pub cell: Cell,
}

/// Where grid line or cell `i` starts: each cell takes its size plus one
/// pixel of grid line, after a first line.
pub open spec fn spec_offset(i: int, cell_size: int) -> int {
    i * (cell_size + 1) + 1
}

/// The side of the square universe that a canvas shows.
pub const UNIVERSE_SIDE: u32 = 64;

/// The side of a cell in pixels.
pub const CELL_SIZE: u32 = 20;

/// A universe laid out on a canvas: `width` by `height` grid cells of
/// `cell_size` pixels.
pub struct Canvas {
    pub cell_size: u32,
    pub width: u32,
    pub height: u32,
    pub universe: Universe,
}

impl Canvas {
    /// The universe is well formed and every line and cell lies within the
    /// range of pixel coordinates.
    pub open spec fn wf(&self) -> bool {
        &&& self.universe.wf()
        &&& self.cell_size < u32::MAX
        &&& (self.cell_size + 1) * self.width + 1 <= u32::MAX
        &&& (self.cell_size + 1) * self.height + 1 <= u32::MAX
        &&& (self.cell_size + 1) * self.universe.width + 1 <= u32::MAX
        &&& (self.cell_size + 1) * self.universe.height + 1 <= u32::MAX
    }

    pub open spec fn spec_vertical(&self, i: int) -> Line {
        Line {
            x0: spec_offset(i, self.cell_size as int) as u32,
            y0: 0,
            x1: spec_offset(i, self.cell_size as int) as u32,
            y1: ((self.cell_size + 1) * self.height + 1) as u32,
        }
    }

    pub open spec fn spec_horizontal(&self, j: int) -> Line {
        Line {
            x0: 0,
            y0: spec_offset(j, self.cell_size as int) as u32,
            x1: ((self.cell_size + 1) * self.width + 1) as u32,
            y1: spec_offset(j, self.cell_size as int) as u32,
        }
    }

    /// The square of the cell at position `k` of the universe.
    pub open spec fn spec_cell_rect(&self, k: int) -> CellRect {
        let w = self.universe.width as int;
        CellRect {
            x: spec_offset(k % w, self.cell_size as int) as u32,
            y: spec_offset(k / w, self.cell_size as int) as u32,
            size: self.cell_size,
            cell: self.universe.cells@[k],
        }
    }

    /// A canvas of the given client size in pixels, cut into cells of
    /// `CELL_SIZE`, showing a new universe of `UNIVERSE_SIDE` square.
    pub fn new(client_width: u32, client_height: u32) -> (r: Canvas)
        requires
            client_width <= i32::MAX,
            client_height <= i32::MAX,
        ensures
            r.wf(),
            r.cell_size == CELL_SIZE,
            r.width == client_width / CELL_SIZE,
            r.height == client_height / CELL_SIZE,
            r.universe.width == UNIVERSE_SIDE,
            r.universe.height == UNIVERSE_SIDE,
            forall|i: int|
                0 <= i < r.universe.cells@.len() ==> r.universe.cells@[i] == spec_initial_cell(i),
    {
        let cell_size = CELL_SIZE;
        let width = client_width / cell_size;
        let height = client_height / cell_size;
        let universe = Universe::new(UNIVERSE_SIDE, UNIVERSE_SIDE);
        proof {
            Canvas::lemma_cells_fit(client_width as int);
            Canvas::lemma_cells_fit(client_height as int);
        }
        Canvas { cell_size, width, height, universe }
    }

    /// A client size that an `i32` holds leaves room for its grid lines.
    proof fn lemma_cells_fit(client: int)
        requires
            0 <= client <= i32::MAX,
        ensures
            (CELL_SIZE + 1) * (client / CELL_SIZE as int) + 1 <= u32::MAX,
    {
        let q = client / 20;
        vstd::arithmetic::div_mod::lemma_fundamental_div_mod(client, 20);
        assert(21 * q + 1 <= u32::MAX) by (nonlinear_arith)
            requires
                q * 20 <= client,
                client <= i32::MAX,
                q >= 0,
        ;
    }

    proof fn lemma_offset_fits(i: int, n: int, cell_size: int)
        requires
            0 <= i < n,
            0 <= cell_size,
            (cell_size + 1) * n + 1 <= u32::MAX,
        ensures
            0 < spec_offset(i, cell_size) <= u32::MAX,
            spec_offset(i, cell_size) + cell_size + 1 <= (cell_size + 1) * n + 1,
    {
        assert(i * (cell_size + 1) + (cell_size + 1) <= (cell_size + 1) * n && 0 <= i * (
        cell_size + 1)) by (nonlinear_arith)
            requires
                0 <= i < n,
                0 <= cell_size,
        ;
    }

    /// The lines of the grid: one down the canvas at the start of each
    /// column, then one across it at the start of each row.
    pub fn draw_grid(&self) -> (r: Vec<Line>)
        requires
            self.wf(),
        ensures
            r@.len() == self.width + self.height,
            forall|i: int| 0 <= i < self.width ==> r@[i] == self.spec_vertical(i),
            forall|j: int| 0 <= j < self.height ==> r@[self.width + j] == self.spec_horizontal(j),
    {
        let step = self.cell_size + 1;
        let bottom = step * self.height + 1;
        let right = step * self.width + 1;
        let mut lines: Vec<Line> = Vec::new();
        for i in 0..self.width
            invariant
                self.wf(),
                step == self.cell_size + 1,
                bottom == (self.cell_size + 1) * self.height + 1,
                lines@.len() == i,
                forall|k: int| 0 <= k < i ==> lines@[k] == self.spec_vertical(k),
        {
            proof {
                Canvas::lemma_offset_fits(i as int, self.width as int, self.cell_size as int);
            }
            let x = i * step + 1;
            lines.push(Line { x0: x, y0: 0, x1: x, y1: bottom });
        }
        for j in 0..self.height
            invariant
                self.wf(),
                step == self.cell_size + 1,
                right == (self.cell_size + 1) * self.width + 1,
                lines@.len() == self.width + j,
                forall|k: int| 0 <= k < self.width ==> lines@[k] == self.spec_vertical(k),
                forall|k: int| 0 <= k < j ==> lines@[self.width + k] == self.spec_horizontal(k),
        {
            proof {
                Canvas::lemma_offset_fits(j as int, self.height as int, self.cell_size as int);
            }
            let y = j * step + 1;
            lines.push(Line { x0: 0, y0: y, x1: right, y1: y });
        }
        lines
    }

    /// One square per cell of the universe, row by row.
    pub fn draw_cells(&self) -> (r: Vec<CellRect>)
        requires
            self.wf(),
        ensures
            r@.len() == self.universe.cells@.len(),
            forall|k: int| 0 <= k < r@.len() ==> r@[k] == self.spec_cell_rect(k),
    {
        let step = self.cell_size + 1;
        let w = self.universe.width;
        let mut rects: Vec<CellRect> = Vec::new();
        assert(0 * w == 0);
        for row in 0..self.universe.height
            invariant
                self.wf(),
                step == self.cell_size + 1,
                w == self.universe.width,
                rects@.len() == row * w,
                rects@.len() <= self.universe.cells@.len(),
                forall|k: int| 0 <= k < rects@.len() ==> rects@[k] == self.spec_cell_rect(k),
        {
            proof {
                Canvas::lemma_offset_fits(row as int, self.universe.height as int, self.cell_size as int);
            }
            let y = row * step + 1;
            for col in 0..w
                invariant
                    self.wf(),
                    step == self.cell_size + 1,
                    w == self.universe.width,
                    row < self.universe.height,
                    y == spec_offset(row as int, self.cell_size as int),
                    rects@.len() == row * w + col,
                    rects@.len() <= self.universe.cells@.len(),
                    forall|k: int| 0 <= k < rects@.len() ==> rects@[k] == self.spec_cell_rect(k),
            {
                proof {
                    Canvas::lemma_offset_fits(col as int, w as int, self.cell_size as int);
                    self.universe.lemma_index_in_range(row as int, col as int);
                    vstd::arithmetic::div_mod::lemma_fundamental_div_mod_converse(
                        (row * w + col) as int,
                        w as int,
                        row as int,
                        col as int,
                    );
                }
                let idx = self.universe.get_index(row, col);
                let x = col * step + 1;
                rects.push(CellRect { x, y, size: self.cell_size, cell: self.universe.cells[idx] });
            }
            assert((row + 1) * w == row * w + w) by (nonlinear_arith);
        }
        assert(self.universe.height * w == w * self.universe.height) by (nonlinear_arith);
        rects
    }

    /// Moves the universe on by one generation.
    pub fn step(&mut self)
        requires
            old(self).wf(),
        ensures
            final(self).wf(),
            final(self).cell_size == old(self).cell_size,
            final(self).width == old(self).width,
            final(self).height == old(self).height,
            final(self).universe.width == old(self).universe.width,
            final(self).universe.height == old(self).universe.height,
            forall|i: int|
                0 <= i < final(self).universe.cells@.len() ==> final(self).universe.cells@[i]
                    == spec_next_cell(
                    old(self).universe.cells@[i],
                    old(self).universe.spec_live_neighbors(
                        i / old(self).universe.width as int,
                        i % old(self).universe.width as int,
                    ),
                ),
    {
        self.universe.tick();
    }
}

} // verus!
